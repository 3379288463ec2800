use rustbot::docsearch::{
    doc_item_to_result, doc_rank_cmp, matches_path, render_doc_item, split_path, DocItem,
    DocParent, ItemType, QueryPath, RootLevel,
};
use rustbot::text::ascii_lowercase;

fn sample_item() -> DocItem {
    DocItem {
        kind: ItemType::Other,
        name: "eq".to_string(),
        parent: Some(DocParent {
            kind: ItemType::Other,
            name: "BTreeMap".to_string(),
        }),
        path: "std::collections".to_string(),
        desc: "".to_string(),
    }
}

fn levels(parts: &[&str]) -> Vec<String> {
    parts.iter().map(|p| p.to_string()).collect()
}

#[test]
fn test_matches_path() {
    let item = sample_item();
    assert!(matches_path(&item, RootLevel::Std, &levels(&["BTreeMap"])));
    assert!(matches_path(&item, RootLevel::Std, &levels(&["col"])));
    assert!(matches_path(&item, RootLevel::Std, &levels(&["Map"])));
    assert!(matches_path(&item, RootLevel::Std, &levels(&["col", "Map"])));
    assert!(!matches_path(&item, RootLevel::Std, &levels(&["map"])));
    assert!(!matches_path(&item, RootLevel::Std, &levels(&["BMap"])));
    assert!(!matches_path(&item, RootLevel::Std, &levels(&["x"])));
    assert!(!matches_path(&item, RootLevel::Alloc, &levels(&["BTreeMap"])));
}

#[test]
fn doc_test_matches_path() {
    let item = sample_item();
    assert!(matches_path(&item, RootLevel::Std, &levels(&["BTreeMap"])));
    assert!(matches_path(&item, RootLevel::Std, &levels(&["col"])));
    assert!(matches_path(&item, RootLevel::Std, &levels(&["Map"])));
    assert!(matches_path(&item, RootLevel::Std, &levels(&["col", "Map"])));
    assert!(!matches_path(&item, RootLevel::Std, &levels(&["map"])));
    assert!(!matches_path(&item, RootLevel::Std, &levels(&["BMap"])));
    assert!(!matches_path(&item, RootLevel::Std, &levels(&["x"])));
    assert!(!matches_path(&item, RootLevel::Alloc, &levels(&["BTreeMap"])));
}

#[test]
fn search_test_matches_path() {
    let item = sample_item();
    assert!(matches_path(&item, RootLevel::Std, &levels(&["BTreeMap"])));
    assert!(matches_path(&item, RootLevel::Std, &levels(&["col"])));
    assert!(matches_path(&item, RootLevel::Std, &levels(&["Map"])));
    assert!(matches_path(&item, RootLevel::Std, &levels(&["col", "Map"])));
    assert!(!matches_path(&item, RootLevel::Std, &levels(&["map"])));
    assert!(!matches_path(&item, RootLevel::Std, &levels(&["BMap"])));
    assert!(!matches_path(&item, RootLevel::Std, &levels(&["x"])));
    assert!(!matches_path(&item, RootLevel::Alloc, &levels(&["BTreeMap"])));
}

#[test]
fn split_path_peels_the_root() {
    let q = split_path(&levels(&["core", "mem", "swap"])).unwrap();
    assert_eq!(
        q,
        QueryPath {
            root: RootLevel::Core,
            path: levels(&["mem"]),
            name: "swap".to_string(),
        }
    );
    // Without an explicit root the standard library is assumed.
    let q = split_path(&levels(&["vec", "Vec"])).unwrap();
    assert_eq!(q.root, RootLevel::Std);
    assert_eq!(q.path, levels(&["vec"]));
    assert_eq!(q.name, "Vec");
    // A bare root has no name to search for.
    assert!(split_path(&levels(&["std"])).is_none());
    assert!(split_path(&levels(&[])).is_none());
}

#[test]
fn item_kind_predicates() {
    assert!(ItemType::Keyword.is_keyword_or_primitive());
    assert!(ItemType::Primitive.is_keyword_or_primitive());
    assert!(!ItemType::Macro.is_keyword_or_primitive());
    assert!(ItemType::Macro.is_macro());
    assert!(!ItemType::Other.is_macro());
}

#[test]
fn doc_item_rendering() {
    let item = DocItem {
        kind: ItemType::Other,
        name: "BTreeMap".to_string(),
        parent: None,
        path: "std::collections".to_string(),
        desc: "An ordered map".to_string(),
    };
    let line = render_doc_item(&item, "std/collections/struct.BTreeMap.html");
    let expected = format!(
        "{}{}",
        "<a href=\"https://doc.rust-lang.org/std/collections/struct.BTreeMap.html\">",
        "std::collections::BTreeMap</a> - An ordered map"
    );
    assert_eq!(line, expected);

    let kw = DocItem {
        kind: ItemType::Keyword,
        name: "match".to_string(),
        parent: None,
        path: "std".to_string(),
        desc: "".to_string(),
    };
    let line = render_doc_item(&kw, "std/keyword.match.html");
    assert_eq!(
        line,
        "<a href=\"https://doc.rust-lang.org/std/keyword.match.html\">match</a> (keyword)"
    );
}

#[test]
fn doc_inline_result_parts() {
    let item = DocItem {
        kind: ItemType::Macro,
        name: "vec".to_string(),
        parent: None,
        path: "std".to_string(),
        desc: "Creates a `Vec`".to_string(),
    };
    let url = "https://doc.rust-lang.org/std/macro.vec.html";
    let r = doc_item_to_result(&item, url);
    assert_eq!(r.title, "std::vec!");
    let expected = format!(
        "{}{}",
        "<a href=\"https://doc.rust-lang.org/std/macro.vec.html\">std::vec!</a>",
        " - Creates a <code>Vec</code>"
    );
    assert_eq!(r.message, expected);
    assert_eq!(r.description, "Creates a `Vec`");
    // The id is the hex digest of the address.
    assert_eq!(r.id.len(), 64);
    assert!(r.id.chars().all(|c| c.is_ascii_hexdigit()));
}

#[test]
fn result_ordering_prefers_short_described_names() {
    let base = DocItem {
        kind: ItemType::Other,
        name: "Vec".to_string(),
        parent: None,
        path: "std::vec".to_string(),
        desc: "A growable array".to_string(),
    };
    let longer = DocItem {
        name: "VecDeque".to_string(),
        ..base.clone()
    };
    assert_eq!(doc_rank_cmp(&base, &longer), -1);
    assert_eq!(doc_rank_cmp(&longer, &base), 1);
    // Same length: a description wins over none.
    let undescribed = DocItem {
        desc: "".to_string(),
        ..base.clone()
    };
    assert_eq!(doc_rank_cmp(&base, &undescribed), -1);
    // Then the kind's precedence decides.
    let kw = DocItem {
        kind: ItemType::Keyword,
        ..base.clone()
    };
    assert_eq!(doc_rank_cmp(&kw, &base), -1);
    // Ties on everything compare the path.
    let other_path = DocItem {
        path: "std::zeta".to_string(),
        ..base.clone()
    };
    assert_eq!(doc_rank_cmp(&base, &other_path), -1);
    assert_eq!(doc_rank_cmp(&base, &base.clone()), 0);
}

#[test]
fn query_names_are_lowered_for_matching() {
    assert_eq!(ascii_lowercase("BTreeMap"), "btreemap");
    assert_eq!(ascii_lowercase("abc123"), "abc123");
    assert_eq!(ascii_lowercase("\u{201c}A\u{201d}"), "\u{201c}a\u{201d}");
}
