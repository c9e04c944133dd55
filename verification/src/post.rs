//! The dynamic document workflow: a `Post` holds exactly one current state
//! value, and every operation is dispatched to it. A transition takes the
//! installed state out, asks it for its successor, and reinstalls the result,
//! so the document is never left without a valid state. Operations that the
//! current stage does not support are identity no-ops, never errors.

use vstd::prelude::*;
use vstd::string::StringExecFns;

verus! {

/// A lifecycle stage, held by `Post` as an interchangeable state value.
/// Each stage decides for itself what every operation does to it.
#[derive(Clone, Copy, Debug, PartialEq, Eq, Structural)]
pub enum State {
    Draft,
    PendingReview,
    Published,
}

/// The mathematical model of a document: its stage and its stored text.
pub struct PostView {
    pub state: State,
    pub text: Seq<char>,
}

/// What `add_text` does to a document: appends while in Draft, else nothing.
pub open spec fn spec_add_text(v: PostView, t: Seq<char>) -> PostView {
    if v.state == State::Draft {
        PostView { state: v.state, text: v.text + t }
    } else {
        v
    }
}

/// What `request_review` does: Draft moves to PendingReview, else nothing.
pub open spec fn spec_request_review(v: PostView) -> PostView {
    if v.state == State::Draft {
        PostView { state: State::PendingReview, text: v.text }
    } else {
        v
    }
}

/// What `approve` does: PendingReview moves to Published, else nothing.
pub open spec fn spec_approve(v: PostView) -> PostView {
    if v.state == State::PendingReview {
        PostView { state: State::Published, text: v.text }
    } else {
        v
    }
}

/// What `reject` does: PendingReview moves back to Draft, keeping the text.
pub open spec fn spec_reject(v: PostView) -> PostView {
    if v.state == State::PendingReview {
        PostView { state: State::Draft, text: v.text }
    } else {
        v
    }
}

/// The text a reader sees: hidden (empty) in every stage but Published.
pub open spec fn spec_visible(v: PostView) -> Seq<char> {
    if v.state == State::Published {
        v.text
    } else {
        Seq::<char>::empty()
    }
}

/// A document in the dynamic workflow.
pub struct Post {
    state: State,
    content: String,
}

impl View for Post {
    type V = PostView;

    closed spec fn view(&self) -> PostView {
        PostView { state: self.state, text: self.content@ }
    }
}

impl State {
    /// Whether this stage lets text be added to the document.
    pub fn allows_edit(&self) -> (r: bool)
        ensures
            r == (*self == State::Draft),
    {
        match self {
            State::Draft => true,
            _ => false,
        }
    }

    /// The successor under a review request: Draft yields PendingReview,
    /// every other stage yields itself.
    pub fn request_review(self) -> (next: State)
        ensures
            next == (if self == State::Draft { State::PendingReview } else { self }),
    {
        match self {
            State::Draft => State::PendingReview,
            other => other,
        }
    }

    /// The successor under approval: PendingReview yields Published,
    /// every other stage yields itself.
    pub fn approve(self) -> (next: State)
        ensures
            next == (if self == State::PendingReview { State::Published } else { self }),
    {
        match self {
            State::PendingReview => State::Published,
            other => other,
        }
    }

    /// The successor under rejection: PendingReview yields Draft,
    /// every other stage yields itself.
    pub fn reject(self) -> (next: State)
        ensures
            next == (if self == State::PendingReview { State::Draft } else { self }),
    {
        match self {
            State::PendingReview => State::Draft,
            other => other,
        }
    }

    /// The text this stage lets a reader see of `post`: only Published
    /// shows the stored text; every other stage shows the empty string.
    pub fn content<'a>(&self, post: &'a Post) -> (r: &'a str)
        ensures
            *self == State::Published ==> r@ == post@.text,
            *self != State::Published ==> r@ == Seq::<char>::empty(),
    {
        match self {
            State::Published => post.content.as_str(),
            _ => {
                let empty = "";
                proof {
                    reveal_strlit("");
                    assert(empty@ =~= Seq::<char>::empty());
                }
                empty
            },
        }
    }
}

impl Post {
    /// A new document: Draft stage, empty content.
    pub fn new() -> (post: Post)
        ensures
            post@ == (PostView { state: State::Draft, text: Seq::<char>::empty() }),
    {
        Post { state: State::Draft, content: String::new() }
    }

    /// Appends `text` while in Draft; in any other stage a silent no-op.
    pub fn add_text(&mut self, text: &str)
        ensures
            final(self)@ == spec_add_text(old(self)@, text@),
    {
        let current = self.state;
        if current.allows_edit() {
            self.content.append(text);
        }
    }

    /// Moves a Draft under review; in any other stage a no-op. The current
    /// state is taken out, asked for its successor, and reinstalled.
    pub fn request_review(&mut self)
        ensures
            final(self)@ == spec_request_review(old(self)@),
    {
        let current = self.state;
        self.state = current.request_review();
    }

    /// Publishes a document under review; in any other stage a no-op.
    pub fn approve(&mut self)
        ensures
            final(self)@ == spec_approve(old(self)@),
    {
        let current = self.state;
        self.state = current.approve();
    }

    /// Returns a document under review to Draft, keeping its text;
    /// in any other stage a no-op.
    pub fn reject(&mut self)
        ensures
            final(self)@ == spec_reject(old(self)@),
    {
        let current = self.state;
        self.state = current.reject();
    }

    /// The visible text: empty unless the document is Published.
    pub fn content(&self) -> (r: &str)
        ensures
            r@ == spec_visible(self@),
    {
        let current = self.state;
        current.content(self)
    }
}

/// A document that is not yet Published shows empty text, whatever it
/// stores. In particular a freshly constructed document, which starts in
/// Draft, shows empty text.
pub proof fn lemma_hidden_unless_published(v: PostView)
    requires
        v.state != State::Published,
    ensures
        spec_visible(v) == Seq::<char>::empty(),
{
}

/// Added text stays hidden: `add_text` never changes the stage, so however
/// often text is added to an unpublished document, it still shows empty text.
pub proof fn lemma_added_text_hidden(v: PostView, t: Seq<char>)
    requires
        v.state != State::Published,
    ensures
        spec_add_text(v, t).state == v.state,
        spec_visible(spec_add_text(v, t)) == Seq::<char>::empty(),
{
}

/// Applies a whole series of `add_text` operations, first element first.
pub open spec fn spec_add_texts(v: PostView, ts: Seq<Seq<char>>) -> PostView
    decreases ts.len(),
{
    if ts.len() == 0 {
        v
    } else {
        spec_add_texts(spec_add_text(v, ts[0]), ts.skip(1))
    }
}

/// However many times text is added to an unpublished document, the stage
/// is unchanged and the document still shows empty text.
pub proof fn lemma_repeated_add_text_hidden(v: PostView, ts: Seq<Seq<char>>)
    requires
        v.state != State::Published,
    ensures
        spec_add_texts(v, ts).state == v.state,
        spec_visible(spec_add_texts(v, ts)) == Seq::<char>::empty(),
    decreases ts.len(),
{
    if ts.len() > 0 {
        lemma_repeated_add_text_hidden(spec_add_text(v, ts[0]), ts.skip(1));
    }
}

/// Stage transitions are strictly ordered and skip nothing: each operation
/// either leaves the stage alone or moves it one legal step — a review
/// request only Draft -> PendingReview, an approval only PendingReview ->
/// Published, a rejection only PendingReview -> Draft — and `add_text`
/// never changes the stage at all.
pub proof fn lemma_transitions_strictly_ordered(v: PostView, t: Seq<char>)
    ensures
        spec_request_review(v).state == v.state || (v.state == State::Draft
            && spec_request_review(v).state == State::PendingReview),
        spec_approve(v).state == v.state || (v.state == State::PendingReview
            && spec_approve(v).state == State::Published),
        spec_reject(v).state == v.state || (v.state == State::PendingReview
            && spec_reject(v).state == State::Draft),
        spec_add_text(v, t).state == v.state,
{
}

/// Review round trip: requesting review from Draft and then rejecting
/// returns the document to exactly its old value — the text is preserved.
pub proof fn lemma_reject_round_trip(v: PostView)
    requires
        v.state == State::Draft,
    ensures
        spec_reject(spec_request_review(v)) == v,
{
}

/// The full path from Draft through review to approval publishes the
/// document, and the visible text is exactly the accumulated text.
pub proof fn lemma_publish_path(v: PostView, t: Seq<char>)
    requires
        v.state == State::Draft,
    ensures
        spec_approve(spec_request_review(spec_add_text(v, t))).state == State::Published,
        spec_visible(spec_approve(spec_request_review(spec_add_text(v, t)))) == v.text + t,
{
}

/// Approval is a no-op on a Draft document: stage and text are unchanged.
pub proof fn lemma_approve_noop_on_draft(v: PostView)
    requires
        v.state == State::Draft,
    ensures
        spec_approve(v) == v,
{
}

/// Rejection is a no-op on a Published document: stage and text are unchanged.
pub proof fn lemma_reject_noop_on_published(v: PostView)
    requires
        v.state == State::Published,
    ensures
        spec_reject(v) == v,
{
}

} // verus!
