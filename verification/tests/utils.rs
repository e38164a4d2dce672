use burrow::text::decimal;
use burrow::utils::stream_id::{Id, StreamId};
use futures::task::noop_waker;
use std::task::{Context, Poll};

#[test]
fn decimal_renders_numbers() {
    for n in [0u64, 7, 9, 10, 42, 100, 5422, 65535, 1_000_000, u64::MAX] {
        assert_eq!(decimal(n), n.to_string());
    }
}

#[test]
fn id_keeps_its_number() {
    assert_eq!(Id::new(0).as_u32(), 0);
    assert_eq!(Id::new(u32::MAX).as_u32(), u32::MAX);
    assert_eq!(Id::new(17), Id::new(17));
    assert_ne!(Id::new(17), Id::new(18));
}

#[test]
fn id_is_shown_in_decimal() {
    assert_eq!(Id::new(0).to_string(), "0");
    assert_eq!(Id::new(1023).to_string(), "1023");
    assert_eq!(Id::new(u32::MAX).to_string(), "4294967295");
}

struct Numbered(u32);

impl StreamId for Numbered {
    fn stream_id(&self) -> Id {
        Id::new(self.0)
    }
}

#[test]
fn any_stream_can_identify_itself() {
    assert_eq!(Numbered(3).stream_id(), Id::new(3));
}

fn outbound_ids(mode: yamux::Mode, count: usize) -> Vec<Id> {
    let socket = futures::io::Cursor::new(Vec::<u8>::new());
    let mut connection = yamux::Connection::new(socket, yamux::Config::default(), mode);
    let waker = noop_waker();
    let mut cx = Context::from_waker(&waker);
    let mut ids = Vec::new();
    for _ in 0..count {
        match connection.poll_new_outbound(&mut cx) {
            Poll::Ready(Ok(stream)) => {
                let id = Id::from(stream.id());
                assert_eq!(id.as_u32(), stream.id().val());
                ids.push(id);
            }
            _ => panic!("no outbound stream"),
        }
    }
    ids
}

#[test]
fn id_is_taken_from_a_yamux_stream() {
    assert_eq!(
        outbound_ids(yamux::Mode::Client, 3),
        vec![Id::new(1), Id::new(3), Id::new(5)]
    );
    assert_eq!(
        outbound_ids(yamux::Mode::Server, 2),
        vec![Id::new(2), Id::new(4)]
    );
}

#[test]
fn plain_patterns() {
    assert!(burrow::utils::matches::matches("cat", "cat"));
    assert!(!burrow::utils::matches::matches("dog", "cat"));
    assert!(!burrow::utils::matches::matches("cat", "Cat"));
    assert!(!burrow::utils::matches::matches("cat", "cats"));
    assert!(!burrow::utils::matches::matches("cats", "cat"));
    assert!(burrow::utils::matches::matches("", ""));
    assert!(!burrow::utils::matches::matches("", "a"));
    assert!(!burrow::utils::matches::matches("a", ""));
}

#[test]
fn star_patterns() {
    assert!(burrow::utils::matches::matches("*", ""));
    assert!(burrow::utils::matches::matches("*", "anything at all"));
    assert!(burrow::utils::matches::matches("**", "x"));
    assert!(burrow::utils::matches::matches("*cat*", "dog_cat_dog"));
    assert!(burrow::utils::matches::matches("*.example.com", "www.example.com"));
    assert!(!burrow::utils::matches::matches("*.example.com", "example.com"));
    assert!(!burrow::utils::matches::matches("*d", "cat"));
    assert!(burrow::utils::matches::matches("*ab", "aab"));
    assert!(!burrow::utils::matches::matches("*ab", "aba"));
}

#[test]
fn question_mark_patterns() {
    assert!(burrow::utils::matches::matches("c?t", "cat"));
    assert!(burrow::utils::matches::matches("c?t", "cot"));
    assert!(burrow::utils::matches::matches("???", "cat"));
    assert!(!burrow::utils::matches::matches("????", "cat"));
    assert!(!burrow::utils::matches::matches("?", "cat"));
    assert!(!burrow::utils::matches::matches("?", ""));
    assert!(burrow::utils::matches::matches("?", "\u{e9}"));
}

#[test]
fn patterns_concatenate() {
    assert!(burrow::utils::matches::matches("a*", "abc"));
    assert!(burrow::utils::matches::matches("?.*", "x.yz"));
    assert!(burrow::utils::matches::matches("a*?.*", "abcx.yz"));
}

fn stands_for(pattern: &[char], text: &[char]) -> bool {
    match pattern.split_first() {
        None => text.is_empty(),
        Some(('*', rest)) => {
            stands_for(rest, text) || (!text.is_empty() && stands_for(pattern, &text[1..]))
        }
        Some((p, rest)) => {
            !text.is_empty() && (*p == '?' || *p == text[0]) && stands_for(rest, &text[1..])
        }
    }
}

fn words(alphabet: &[char], longest: usize) -> Vec<String> {
    let mut all = vec![String::new()];
    let mut last = vec![String::new()];
    for _ in 0..longest {
        let mut next = Vec::new();
        for word in &last {
            for c in alphabet {
                next.push(format!("{word}{c}"));
            }
        }
        all.extend(next.iter().cloned());
        last = next;
    }
    all
}

#[test]
fn all_short_patterns_and_texts() {
    let texts = words(&['a', 'b', '*', '?'], 4);
    for pattern in words(&['a', 'b', '*', '?'], 5) {
        let p: Vec<char> = pattern.chars().collect();
        for text in &texts {
            let t: Vec<char> = text.chars().collect();
            assert_eq!(
                burrow::utils::matches::matches(&pattern, text),
                stands_for(&p, &t),
                "{pattern} on {text}"
            );
        }
    }
}
