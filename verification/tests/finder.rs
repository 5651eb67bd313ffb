use license_hub::finder::{
    first_child_of, join_path_of, list_entries, normalize_path, ResourceRow,
};
use license_hub::text::{chars_of, string_of};

fn direct_normalize(p: &str) -> String {
    let mut s = p.trim().to_string();
    if !s.starts_with('/') {
        s = format!("/{}", s);
    }
    if s.len() > 1 && s.ends_with('/') {
        s.pop();
    }
    s
}

fn direct_first_child(base: &str, path: &str) -> Option<String> {
    let b = direct_normalize(base);
    let p = direct_normalize(path);
    if b == "/" {
        let seg = p.trim_start_matches('/').split('/').next().unwrap_or("");
        return if seg.is_empty() { None } else { Some(seg.to_string()) };
    }
    let prefix = format!("{}/", b.trim_end_matches('/'));
    if p.starts_with(&prefix) {
        let rest = &p[prefix.len()..];
        let seg = rest.split('/').next().unwrap_or("");
        if !seg.is_empty() {
            return Some(seg.to_string());
        }
    }
    None
}

fn direct_join(base: &str, name: &str) -> String {
    if base == "/" {
        format!("/{}", name)
    } else {
        format!("{}/{}", base.trim_end_matches('/'), name)
    }
}

const PATHS: [&str; 16] = [
    "", "/", "//", "///", "a", "/a", "/a/", "a//", " /docs/img ", "/docs/img/logo.png",
    "docs/img", "/docs", "/docs/", "//a/b", "/a /", "\t/中文/文件\n",
];

#[test]
fn normalize_path_examples() {
    assert_eq!(normalize_path(" docs/img/ "), "/docs/img");
    assert_eq!(normalize_path(""), "/");
    assert_eq!(normalize_path("/"), "/");
    assert_eq!(normalize_path("a//"), "/a/");
    for p in PATHS {
        assert_eq!(normalize_path(p), direct_normalize(p), "{:?}", p);
    }
}

#[test]
fn normalize_keeps_canonical_paths() {
    for p in ["/", "/a", "/docs/img", "/中文"] {
        assert_eq!(normalize_path(p), p);
    }
}

#[test]
fn first_child_and_join_agree_with_string_forms() {
    for b in PATHS {
        for p in PATHS {
            let got = first_child_of(&chars_of(b), &chars_of(p)).map(|v| string_of(&v));
            assert_eq!(got, direct_first_child(b, p), "{:?} {:?}", b, p);
        }
        for name in ["x", "", "中"] {
            assert_eq!(string_of(&join_path_of(&chars_of(b), &chars_of(name))), direct_join(b, name));
        }
    }
}

#[test]
fn child_lies_on_path() {
    let base = "/docs";
    let path = "/docs/img/logo.png";
    let child = first_child_of(&chars_of(base), &chars_of(path)).map(|v| string_of(&v)).unwrap();
    assert_eq!(child, "img");
    let joined = string_of(&join_path_of(&chars_of(base), &chars_of(&child)));
    assert_eq!(joined, "/docs/img");
    assert!(path.starts_with(&format!("{}/", joined)));
}

fn row(path: &str, name: &str, t: Option<i64>) -> ResourceRow {
    ResourceRow { path: path.into(), name: name.into(), updated_at: t, url: format!("https://cdn/{}", name) }
}

#[test]
fn listing_of_a_folder() {
    let rows = vec![
        row("/docs", "readme.md", Some(100)),
        row("/docs/img/a.png", "a.png", None),
        row("docs/zeta/x", "x", None),
        row("/docs/img/b.png", "b.png", None),
        row("/docs/", "guide.md", None),
        row("/other/c", "c", None),
        row("/docs/alpha", "alpha", None),
    ];
    let r = list_entries(Some("/docs".into()), &rows);
    assert_eq!(r.path, "/docs");
    let files: Vec<(&str, &str, i64)> =
        r.files.iter().map(|f| (f.basename.as_str(), f.path.as_str(), f.timestamp)).collect();
    assert_eq!(files, vec![("readme.md", "/docs", 100), ("guide.md", "/docs", 0)]);
    assert!(r.files.iter().all(|f| f.type_ == "file" && f.size == 0));
    assert_eq!(r.files[0].url.as_deref(), Some("https://cdn/readme.md"));
    let dirs: Vec<(&str, &str)> = r.dirs.iter().map(|d| (d.basename.as_str(), d.path.as_str())).collect();
    assert_eq!(dirs, vec![("alpha", "/docs/alpha"), ("img", "/docs/img"), ("zeta", "/docs/zeta")]);
    assert!(r.dirs.iter().all(|d| d.type_ == "dir" && d.url.is_none() && d.timestamp == 0));
}

#[test]
fn listing_of_the_root_by_default() {
    let rows = vec![row("/b/x", "x", None), row("a", "a", None), row("/b/y", "y", None), row("/", "top", None)];
    let r = list_entries(None, &rows);
    assert_eq!(r.path, "/");
    let dirs: Vec<&str> = r.dirs.iter().map(|d| d.path.as_str()).collect();
    assert_eq!(dirs, vec!["/a", "/b"]);
    assert_eq!(r.files.len(), 1);
    assert_eq!(r.files[0].basename, "top");
}

#[test]
fn joined_names_are_found_again() {
    for base in ["/", "/docs", "/a b/c"] {
        for name in ["x", "two words", "é"] {
            let b = chars_of(base);
            let j = join_path_of(&b, &chars_of(name));
            let found = first_child_of(&b, &j).map(|v| string_of(&v));
            assert_eq!(found.as_deref(), Some(name));
            let below = chars_of(&format!("{}/x", string_of(&j)));
            let found = first_child_of(&b, &below).map(|v| string_of(&v));
            assert_eq!(found.as_deref(), Some(name));
        }
    }
}
