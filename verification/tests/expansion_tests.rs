use dojo_world::expansion::{expanded_file_text, join_texts};

#[test]
fn expanded_file_without_origin() {
    assert_eq!(expanded_file_text(None, "lib.cairo", "mod a;"), "lib.cairo:\n\nmod a;");
}

#[test]
fn expanded_file_with_origin() {
    assert_eq!(
        expanded_file_text(Some("lib.cairo:3:1"), "position.cairo", "struct P {}"),
        "lib.cairo:3:1\nposition.cairo:\n\nstruct P {}"
    );
}

#[test]
fn join_texts_is_join() {
    let parts: Vec<String> = vec!["a".to_string(), "bc".to_string(), "".to_string(), "d".to_string()];
    assert_eq!(join_texts(&parts, "\n\n"), parts.join("\n\n"));
    assert_eq!(join_texts(&vec![], "\n\n"), "");
    assert_eq!(join_texts(&vec!["only".to_string()], "\n\n"), "only");
}

#[test]
fn joining_concatenated_lists_puts_one_separator_between() {
    let first = vec!["x".to_string(), "y".to_string()];
    let second = vec!["z".to_string()];
    let both: Vec<String> = first.iter().chain(second.iter()).cloned().collect();
    assert_eq!(
        join_texts(&both, ", "),
        format!("{}, {}", join_texts(&first, ", "), join_texts(&second, ", "))
    );
}

use dojo_world::expansion::{distinct_file_ids, generated_cairo_code, ExpandedFile};

#[test]
fn distinct_file_ids_keeps_first_occurrences_in_order() {
    assert_eq!(distinct_file_ids(&vec![3, 1, 3, 2, 1, 4]), vec![3, 1, 2, 4]);
    assert_eq!(distinct_file_ids(&vec![]), Vec::<u64>::new());
    assert_eq!(distinct_file_ids(&vec![7, 7, 7]), vec![7]);
}

fn file(id: u64, origin: Option<&str>, name: &str, content: &str) -> ExpandedFile {
    ExpandedFile {
        id,
        origin: origin.map(|o| o.to_string()),
        file_name: name.to_string(),
        content: content.to_string(),
    }
}

#[test]
fn generated_cairo_code_lists_each_file_once() {
    let files = vec![
        file(0, None, "lib.cairo", "mod m;"),
        file(1, Some("lib.cairo:1:1"), "m.cairo", "fn f() {}"),
        file(0, None, "lib.cairo", "mod m;"),
    ];
    assert_eq!(
        generated_cairo_code(&files),
        "lib.cairo:\n\nmod m;\n\nlib.cairo:1:1\nm.cairo:\n\nfn f() {}"
    );
    assert_eq!(generated_cairo_code(&vec![]), "");
}
