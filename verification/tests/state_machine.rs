use state_pattern::typed_state_pattern as typed;
use state_pattern::Post;

#[test]
fn new_post_shows_empty_content() {
    let post = Post::new();
    assert_eq!("", post.content());
}

#[test]
fn added_text_stays_hidden_in_draft() {
    let mut post = Post::new();
    post.add_text("first line");
    assert_eq!("", post.content());
    post.add_text(" and more");
    assert_eq!("", post.content());
}

#[test]
fn content_hidden_while_pending_review() {
    let mut post = Post::new();
    post.add_text("body");
    post.request_review();
    assert_eq!("", post.content());
}

#[test]
fn reject_preserves_added_text() {
    let mut post = Post::new();
    post.add_text("kept across rejection");
    post.request_review();
    post.reject();
    assert_eq!("", post.content());
    post.request_review();
    post.approve();
    assert_eq!("kept across rejection", post.content());
}

#[test]
fn full_path_publishes_added_text() {
    let mut post = Post::new();
    post.add_text("X");
    post.request_review();
    post.approve();
    assert_eq!("X", post.content());
}

#[test]
fn approve_on_draft_is_a_noop() {
    let mut post = Post::new();
    post.add_text("draft body");
    post.approve();
    assert_eq!("", post.content());
    post.add_text(" still editable");
    post.request_review();
    post.approve();
    assert_eq!("draft body still editable", post.content());
}

#[test]
fn reject_on_published_is_a_noop() {
    let mut post = Post::new();
    post.add_text("published body");
    post.request_review();
    post.approve();
    post.reject();
    assert_eq!("published body", post.content());
}

#[test]
fn request_review_twice_is_a_noop() {
    let mut post = Post::new();
    post.add_text("body");
    post.request_review();
    post.request_review();
    post.approve();
    assert_eq!("body", post.content());
}

#[test]
fn add_text_outside_draft_is_a_noop() {
    let mut post = Post::new();
    post.add_text("body");
    post.request_review();
    post.add_text(" ignored under review");
    post.approve();
    post.add_text(" ignored once published");
    assert_eq!("body", post.content());
}

#[test]
fn salad_scenario_dynamic() {
    let mut post = Post::new();
    post.add_text("I ate a salad for lunch today");
    assert_eq!("", post.content());
    post.request_review();
    assert_eq!("", post.content());
    post.approve();
    assert_eq!("I ate a salad for lunch today", post.content());
}

#[test]
fn salad_scenario_typed() {
    let mut typed_post = typed::Post::new();
    typed_post.add_text("I ate a salad for lunch today");
    let typed_post = typed_post.request_review();
    let typed_post = typed_post.approve();
    assert_eq!("I ate a salad for lunch today", typed_post.content());
}

#[test]
fn typed_reject_preserves_added_text() {
    let mut draft = typed::Post::new();
    draft.add_text("kept across rejection");
    let pending = draft.request_review();
    let mut draft = pending.reject();
    draft.add_text(", then extended");
    let pending = draft.request_review();
    let published = pending.approve();
    assert_eq!("kept across rejection, then extended", published.content());
}

#[test]
fn typed_add_text_appends() {
    let mut draft = typed::Post::new();
    draft.add_text("one");
    draft.add_text(" two");
    let published = draft.request_review().approve();
    assert_eq!("one two", published.content());
}
