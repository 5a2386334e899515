use frame_snapshot::request::{Request, ARGUMENT_COUNT};

fn line(words: &[&str]) -> Vec<String> {
    words.iter().map(|word| word.to_string()).collect()
}

#[test]
fn command_line_has_four_words() {
    assert_eq!(ARGUMENT_COUNT, 4);
}

#[test]
fn arguments_are_uri_output_and_percent() {
    let request = Request::from_args(&line(&["snap", "file:///v.mp4", "out.png", "40"]));
    assert_eq!(
        request,
        Some(Request { uri: "file:///v.mp4".to_string(), output: "out.png".to_string(), percent: 40 })
    );
}

#[test]
fn unparsable_percent_argument_is_five() {
    for word in ["abc", "", "-3", "4.5", "ten", "99999999999999999999999"].iter() {
        let request = Request::from_args(&line(&["snap", "u", "o", word])).expect("a request");
        assert_eq!(request.percent, 5);
        assert_eq!(request.uri, "u");
        assert_eq!(request.output, "o");
    }
}

#[test]
fn percent_above_the_whole_is_kept() {
    let request = Request::from_args(&line(&["snap", "u", "o", "150"])).expect("a request");
    assert_eq!(request.percent, 150);
}

#[test]
fn short_command_line_is_no_request() {
    assert_eq!(Request::from_args(&line(&[])), None);
    assert_eq!(Request::from_args(&line(&["snap"])), None);
    assert_eq!(Request::from_args(&line(&["snap", "u"])), None);
    assert_eq!(Request::from_args(&line(&["snap", "u", "o"])), None);
}

#[test]
fn further_arguments_are_passed_over() {
    let request = Request::from_args(&line(&["snap", "u", "o", "7", "more", "still more"]));
    assert_eq!(
        request,
        Some(Request { uri: "u".to_string(), output: "o".to_string(), percent: 7 })
    );
}
