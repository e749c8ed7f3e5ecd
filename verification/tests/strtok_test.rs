use corekit::strings::strtok;

#[test]
fn test_strtok() {
    let want = [
        "some",
        "long",
        "string",
        "separated",
        "by",
        "single",
        "white",
        "spaces",
    ];

    let mut some_string = "some long string separated by single white spaces";

    let delim = ' ';
    let mut prev = strtok(&mut some_string, delim);

    assert_eq!(prev, want[0]);

    let mut r = 1;
    loop {
        let curr = strtok(&mut some_string, delim);
        if curr == prev {
            break;
        }

        assert_eq!(curr, want[r]);
        prev = curr;
        r += 1;
    }

    assert_eq!(prev, want[want.len() - 1]);
}

#[test]
fn strtok_without_delimiter_is_idempotent() {
    let mut s = "remainder";
    assert_eq!(strtok(&mut s, ','), "remainder");
    assert_eq!(s, "remainder");
    assert_eq!(strtok(&mut s, ','), "remainder");
    assert_eq!(s, "remainder");
}

#[test]
fn strtok_empty_tokens() {
    let mut s = "a,,b";
    assert_eq!(strtok(&mut s, ','), "a");
    assert_eq!(strtok(&mut s, ','), "");
    assert_eq!(strtok(&mut s, ','), "b");
    assert_eq!(strtok(&mut s, ','), "b");
}

#[test]
fn strtok_empty_string() {
    let mut s = "";
    assert_eq!(strtok(&mut s, ' '), "");
    assert_eq!(s, "");
}

#[test]
fn strtok_trailing_delimiter() {
    let mut s = "a ";
    assert_eq!(strtok(&mut s, ' '), "a");
    assert_eq!(s, "");
    assert_eq!(strtok(&mut s, ' '), "");
}
