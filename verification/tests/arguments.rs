use quantum_launcher::arg_list::{add_to_arguments_list, split_on_spaces};
use quantum_launcher::args::{format_args_for_edit, parse_shell_like_args};

fn strings(v: &[&str]) -> Vec<String> {
    v.iter().map(|s| s.to_string()).collect()
}

#[test]
fn parse_splits_on_whitespace_and_commas() {
    assert_eq!(parse_shell_like_args("-Xmx2G -Xms1G"), strings(&["-Xmx2G", "-Xms1G"]));
    assert_eq!(parse_shell_like_args("a,b,,c"), strings(&["a", "b", "c"]));
    assert_eq!(parse_shell_like_args("  a \t b\n"), strings(&["a", "b"]));
}

#[test]
fn parse_keeps_quoted_text_together() {
    assert_eq!(parse_shell_like_args("\"hello world\" x"), strings(&["hello world", "x"]));
    assert_eq!(parse_shell_like_args("'a,b' c"), strings(&["a,b", "c"]));
    assert_eq!(parse_shell_like_args("say\"hi there\"now"), strings(&["sayhi therenow"]));
}

#[test]
fn parse_escapes() {
    assert_eq!(parse_shell_like_args("a\\ b"), strings(&["a b"]));
    assert_eq!(parse_shell_like_args("\\n\\t\\q"), strings(&["\n\tq"]));
    assert_eq!(parse_shell_like_args("'a\\b'"), strings(&["a\\b"]));
    assert_eq!(parse_shell_like_args("\"x\\\"y\""), strings(&["x\"y"]));
}

#[test]
fn parse_empty_input() {
    assert_eq!(parse_shell_like_args(""), Vec::<String>::new());
    assert_eq!(parse_shell_like_args("   ,  "), Vec::<String>::new());
    // A quoted empty argument is one empty argument.
    assert_eq!(parse_shell_like_args("\"\""), strings(&[""]));
    assert_eq!(parse_shell_like_args("a \"\" b"), strings(&["a", "", "b"]));
    assert_eq!(parse_shell_like_args("''"), strings(&[""]));
}

#[test]
fn format_quotes_what_needs_it() {
    assert_eq!(format_args_for_edit(&strings(&["-Xmx2G", "a b", ""])), "-Xmx2G,\"a b\",\"\"");
    assert_eq!(format_args_for_edit(&strings(&["x,y", "q\"z w"])), "\"x,y\",\"q\\\"z w\"");
    assert_eq!(format_args_for_edit(&Vec::new()), "");
}

#[test]
fn format_then_parse_round_trip() {
    let args = strings(&["-Xmx4G", "with space", "a,b", "-Dfoo=bar"]);
    assert_eq!(parse_shell_like_args(&format_args_for_edit(&args)), args);
}

#[test]
fn format_then_parse_keeps_empty_argument() {
    let args = strings(&["a", "", "b"]);
    assert_eq!(parse_shell_like_args(&format_args_for_edit(&args)), args);
}

#[test]
fn split_on_spaces_drops_empty_pieces() {
    assert_eq!(split_on_spaces("  a  b c "), strings(&["a", "b", "c"]));
    assert_eq!(split_on_spaces(""), Vec::<String>::new());
    assert_eq!(split_on_spaces("a\tb"), strings(&["a\tb"]));
}

#[test]
fn argument_with_spaces_becomes_several_entries() {
    let mut args = strings(&["x", "old", "y"]);
    add_to_arguments_list("-a  -b".to_string(), &mut args, 1);
    assert_eq!(args, strings(&["x", "-a", "-b", "y"]));
}

#[test]
fn argument_without_spaces_replaces_entry() {
    let mut args = strings(&["x", "old", "y"]);
    add_to_arguments_list("new".to_string(), &mut args, 1);
    assert_eq!(args, strings(&["x", "new", "y"]));
    add_to_arguments_list("ignored".to_string(), &mut args, 7);
    assert_eq!(args, strings(&["x", "new", "y"]));
}

#[test]
fn argument_of_only_spaces_removes_entry() {
    let mut args = strings(&["x", "old"]);
    add_to_arguments_list("   ".to_string(), &mut args, 1);
    assert_eq!(args, strings(&["x"]));
}

#[test]
fn quote_free_text_parses_to_the_plain_split() {
    let input = "-Xmx2G, -Dfoo=bar\t,,  -XX:+UseG1GC ";
    let split: Vec<String> = input
        .split(|c: char| c.is_whitespace() || c == ',')
        .filter(|s| !s.is_empty())
        .map(String::from)
        .collect();
    assert_eq!(parse_shell_like_args(input), split);
}
