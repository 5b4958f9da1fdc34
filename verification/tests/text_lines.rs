use minicode::text::str_lines;
use minicode::ui::configure::update_dotenv_content;

fn lines(s: &str) -> Vec<String> {
    str_lines(s).into_iter().map(|l| l.into_iter().collect()).collect()
}

#[test]
fn lines_follow_str_lines() {
    for s in ["", "a", "a\n", "a\r\nb", "a\r\nb\r\n", "abc\r", "x\n\ny", "\r", "\n\n"] {
        let expected: Vec<String> = s.lines().map(|l| l.to_string()).collect();
        assert_eq!(lines(s), expected, "input {:?}", s);
    }
    assert_eq!(lines("abc\r"), vec!["abc\r".to_string()]);
    assert_eq!(lines("a\r\nb"), vec!["a".to_string(), "b".to_string()]);
}

#[test]
fn dotenv_keeps_a_bare_carriage_return_on_the_last_line() {
    assert_eq!(update_dotenv_content(Some("X=1\r\nY=2\r"), "Z", "3"), "X=1\nY=2\r\nZ=3\n");
}
