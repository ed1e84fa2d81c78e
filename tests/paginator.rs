use gax::paginator::{ItemSequence, ItemStep, LoopState, PageSequence, PageStep, PageableResponse};
use std::cell::RefCell;
use std::collections::VecDeque;

#[derive(Clone, Debug, PartialEq)]
struct PageItem {
    name: String,
}

#[derive(Clone, Debug)]
struct TestResponse {
    items: Vec<PageItem>,
    next_page_token: String,
}

impl PageableResponse for TestResponse {
    type PageItem = PageItem;

    fn items(self) -> Vec<PageItem> {
        self.items
    }

    fn next_page_token(&self) -> String {
        self.next_page_token.clone()
    }
}

fn item(name: &str) -> PageItem {
    PageItem {
        name: name.to_string(),
    }
}

fn page(names: &[&str], next: &str) -> TestResponse {
    TestResponse {
        items: names.iter().map(|n| item(n)).collect(),
        next_page_token: next.to_string(),
    }
}

/// A fetch function that replays `replies` in order and records the tokens it
/// receives.
struct Script {
    replies: RefCell<VecDeque<Result<TestResponse, String>>>,
    tokens: RefCell<Vec<String>>,
}

impl Script {
    fn new(replies: Vec<Result<TestResponse, String>>) -> Script {
        Script {
            replies: RefCell::new(replies.into_iter().collect()),
            tokens: RefCell::new(Vec::new()),
        }
    }

    fn fetch(&self, token: String) -> Result<TestResponse, String> {
        self.tokens.borrow_mut().push(token);
        self.replies
            .borrow_mut()
            .pop_front()
            .expect("fetch called more often than scripted")
    }

    fn calls(&self) -> usize {
        self.tokens.borrow().len()
    }
}

fn next_page(seq: &mut PageSequence, script: &Script) -> Option<Result<TestResponse, String>> {
    match seq.step() {
        PageStep::Done => None,
        PageStep::Fetch(token) => match script.fetch(token) {
            Ok(page) => {
                seq.on_page(&page.next_page_token());
                Some(Ok(page))
            }
            Err(e) => {
                seq.on_error();
                Some(Err(e))
            }
        },
    }
}

fn next_item(seq: &mut ItemSequence<PageItem>, script: &Script) -> Option<Result<PageItem, String>> {
    loop {
        match seq.step() {
            ItemStep::Item(item) => return Some(Ok(item)),
            ItemStep::Done => return None,
            ItemStep::Fetch(token) => match script.fetch(token) {
                Ok(page) => {
                    let next = page.next_page_token();
                    seq.on_page(page.items(), &next);
                }
                Err(e) => {
                    seq.on_error();
                    return Some(Err(e));
                }
            },
        }
    }
}

fn all_pages(seq: &mut PageSequence, script: &Script) -> Vec<TestResponse> {
    let mut pages = vec![];
    while let Some(resp) = next_page(seq, script) {
        if let Ok(resp) = resp {
            pages.push(resp)
        }
    }
    pages
}

fn all_items(seq: &mut ItemSequence<PageItem>, script: &Script) -> Vec<PageItem> {
    let mut items = vec![];
    while let Some(resp) = next_item(seq, script) {
        if let Ok(resp) = resp {
            items.push(resp)
        }
    }
    items
}

fn two_pages(second_token: &str) -> Vec<Result<TestResponse, String>> {
    vec![
        Ok(page(&["item1", "item2"], second_token)),
        Ok(page(&["item3"], "")),
    ]
}

#[test]
fn test_paginator() {
    let script = Script::new(two_pages("token2"));
    let mut paginator = PageSequence::new("token1".to_string());
    let resps = all_pages(&mut paginator, &script);
    assert_eq!(resps.len(), 2);
    assert_eq!(resps[0].items[0].name, "item1");
    assert_eq!(resps[0].items[1].name, "item2");
    assert_eq!(*script.tokens.borrow(), vec!["token1".to_string(), "token2".to_string()]);
}

#[test]
fn test_paginator_as_client() {
    let script = Script::new(two_pages("token1"));
    let mut paginator = PageSequence::new(String::new());
    let resps = all_pages(&mut paginator, &script);
    assert_eq!(resps.len(), 2);
    assert_eq!(resps[0].items[0].name, "item1");
    assert_eq!(resps[0].items[1].name, "item2");
    assert_eq!(resps[1].items[0].name, "item3");
}

#[test]
fn test_paginator_error() {
    let script = Script::new(vec![Err("err".to_string())]);
    let mut paginator = PageSequence::new(String::new());
    let mut count = 0;
    while let Some(resp) = next_page(&mut paginator, &script) {
        match resp {
            Ok(_) => {
                panic!("Should not succeed");
            }
            Err(e) => {
                assert_eq!(e, "err");
                count += 1;
            }
        }
    }
    assert_eq!(count, 1);
}

#[test]
fn test_paginator_into_stream() {
    let script = Script::new(two_pages("token1"));
    let mut paginator = PageSequence::new(String::new());
    let resps = all_pages(&mut paginator, &script);
    assert_eq!(resps.len(), 2);
    assert_eq!(resps[0].items[0].name, "item1");
    assert_eq!(resps[0].items[1].name, "item2");
    assert_eq!(resps[1].items[0].name, "item3");
}

#[test]
fn test_item_paginator_into_stream() {
    let script = Script::new(two_pages("token1"));
    let mut items_seq = PageSequence::new(String::new()).items();
    let items = all_items(&mut items_seq, &script);
    assert_eq!(items.len(), 3);
    assert_eq!(items[0].name, "item1");
    assert_eq!(items[1].name, "item2");
    assert_eq!(items[2].name, "item3");
}

#[test]
fn scenario_a_pages_then_end_without_fetch() {
    let script = Script::new(two_pages("token2"));
    let mut seq = PageSequence::new("token1".to_string());
    assert!(matches!(next_page(&mut seq, &script), Some(Ok(_))));
    assert!(matches!(next_page(&mut seq, &script), Some(Ok(_))));
    assert!(seq.is_done());
    assert!(next_page(&mut seq, &script).is_none());
    assert!(next_page(&mut seq, &script).is_none());
    assert_eq!(script.calls(), 2);
}

#[test]
fn scenario_a_items_then_end_without_fetch() {
    let script = Script::new(two_pages("token2"));
    let mut seq = PageSequence::new("token1".to_string()).items();
    let mut names = vec![];
    for _ in 0..3 {
        names.push(next_item(&mut seq, &script).unwrap().unwrap().name);
    }
    assert_eq!(names, vec!["item1", "item2", "item3"]);
    assert!(next_item(&mut seq, &script).is_none());
    assert!(next_item(&mut seq, &script).is_none());
    assert_eq!(script.calls(), 2);
    assert_eq!(*script.tokens.borrow(), vec!["token1".to_string(), "token2".to_string()]);
}

#[test]
fn scenario_b_items_give_the_same_single_error() {
    let script = Script::new(vec![Err("err".to_string())]);
    let mut seq = PageSequence::new(String::new()).items();
    assert_eq!(next_item(&mut seq, &script), Some(Err("err".to_string())));
    assert_eq!(next_item(&mut seq, &script), None);
    assert_eq!(next_item(&mut seq, &script), None);
    assert_eq!(script.calls(), 1);
}

#[test]
fn every_page_comes_in_order_then_end() {
    let replies = vec![
        Ok(page(&["a"], "t1")),
        Ok(page(&["b"], "t2")),
        Ok(page(&["c"], "t3")),
        Ok(page(&["d"], "")),
    ];
    let script = Script::new(replies);
    let mut seq = PageSequence::new("seed".to_string());
    let pages = all_pages(&mut seq, &script);
    let firsts: Vec<String> = pages.iter().map(|p| p.items[0].name.clone()).collect();
    assert_eq!(firsts, vec!["a", "b", "c", "d"]);
    assert_eq!(
        *script.tokens.borrow(),
        vec!["seed".to_string(), "t1".to_string(), "t2".to_string(), "t3".to_string()]
    );
}

#[test]
fn third_fetch_failing_ends_after_one_error() {
    let replies = vec![
        Ok(page(&["a"], "t1")),
        Ok(page(&["b"], "t2")),
        Err("boom".to_string()),
        Ok(page(&["d"], "")),
    ];
    let script = Script::new(replies);
    let mut seq = PageSequence::new(String::new());
    assert!(matches!(next_page(&mut seq, &script), Some(Ok(_))));
    assert!(matches!(next_page(&mut seq, &script), Some(Ok(_))));
    assert!(matches!(next_page(&mut seq, &script), Some(Err(e)) if e == "boom"));
    assert!(next_page(&mut seq, &script).is_none());
    assert!(next_page(&mut seq, &script).is_none());
    assert_eq!(script.calls(), 3);
}

#[test]
fn empty_seed_is_passed_unchanged() {
    let script = Script::new(vec![Ok(page(&[], ""))]);
    let mut seq = PageSequence::new(String::new());
    assert!(matches!(seq.step(), PageStep::Fetch(t) if t.is_empty()));
    assert_eq!(all_pages(&mut seq, &script).len(), 1);
    assert_eq!(*script.tokens.borrow(), vec![String::new()]);
}

#[test]
fn items_flatten_across_empty_pages() {
    let replies = vec![
        Ok(page(&["a", "b"], "t1")),
        Ok(page(&[], "t2")),
        Ok(page(&[], "t3")),
        Ok(page(&["c", "d", "e"], "t4")),
        Ok(page(&[], "t5")),
        Ok(page(&["f"], "t6")),
        Ok(page(&[], "")),
    ];
    let script = Script::new(replies);
    let mut seq = PageSequence::new(String::new()).items();
    let names: Vec<String> = all_items(&mut seq, &script).into_iter().map(|i| i.name).collect();
    assert_eq!(names, vec!["a", "b", "c", "d", "e", "f"]);
    assert_eq!(script.calls(), 7);
}

#[test]
fn items_error_after_some_pages() {
    let replies = vec![Ok(page(&["a"], "t1")), Ok(page(&[], "t2")), Err("late".to_string())];
    let script = Script::new(replies);
    let mut seq = PageSequence::new(String::new()).items();
    assert_eq!(next_item(&mut seq, &script), Some(Ok(item("a"))));
    assert_eq!(next_item(&mut seq, &script), Some(Err("late".to_string())));
    assert_eq!(next_item(&mut seq, &script), None);
    assert_eq!(script.calls(), 3);
}

#[test]
fn item_step_hands_out_buffered_items_first() {
    let mut seq: ItemSequence<u32> = PageSequence::new("s".to_string()).items();
    assert!(matches!(seq.step(), ItemStep::Fetch(t) if t == "s"));
    seq.on_page(vec![7, 8], "next");
    assert!(matches!(seq.step(), ItemStep::Item(7)));
    assert!(matches!(seq.step(), ItemStep::Item(8)));
    assert!(matches!(seq.step(), ItemStep::Fetch(t) if t == "next"));
    seq.on_error();
    assert!(matches!(seq.step(), ItemStep::Done));
}

#[test]
fn loop_state_from_token() {
    assert!(matches!(LoopState::from_token(""), LoopState::Break));
    assert!(matches!(LoopState::from_token("abc"), LoopState::Continue(t) if t == "abc"));
}

#[test]
fn page_sequence_transitions() {
    let mut seq = PageSequence::new("x".to_string());
    assert!(!seq.is_done());
    seq.on_page("y");
    assert!(matches!(seq.step(), PageStep::Fetch(t) if t == "y"));
    seq.on_page("");
    assert!(seq.is_done());
    assert!(matches!(seq.step(), PageStep::Done));
    let mut failed = PageSequence::new("x".to_string());
    failed.on_error();
    assert!(failed.is_done());
}
