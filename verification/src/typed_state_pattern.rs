//! The typed document workflow: one type per lifecycle stage, each exposing
//! only the operations legal in that stage. A transition consumes the value
//! of one stage and returns a value of the next, so calling `approve` on a
//! draft, or adding text to a published document, does not compile — there
//! is no such method to call, and no runtime branch to test.

use vstd::prelude::*;
use vstd::string::StringExecFns;

verus! {

/// A published document; reaching this type guarantees the workflow
/// completed, so its text is visible unconditionally.
pub struct Post {
    content: String,
}

/// A document being written; text may still be added.
pub struct DraftPost {
    content: String,
}

/// A document awaiting review; it can only be approved or rejected.
pub struct PendingReviewPost {
    content: String,
}

impl View for Post {
    type V = Seq<char>;

    closed spec fn view(&self) -> Seq<char> {
        self.content@
    }
}

impl View for DraftPost {
    type V = Seq<char>;

    closed spec fn view(&self) -> Seq<char> {
        self.content@
    }
}

impl View for PendingReviewPost {
    type V = Seq<char>;

    closed spec fn view(&self) -> Seq<char> {
        self.content@
    }
}

impl Post {
    /// Every document starts as a draft with empty content.
    pub fn new() -> (draft: DraftPost)
        ensures
            draft@ == Seq::<char>::empty(),
    {
        DraftPost { content: String::new() }
    }

    /// The stored text, shown unconditionally: a `Post` value only exists
    /// after approval.
    pub fn content(&self) -> (text: &str)
        ensures
            text@ == self@,
    {
        self.content.as_str()
    }
}

impl DraftPost {
    /// Appends `text` to the draft's accumulated content.
    pub fn add_text(&mut self, text: &str)
        ensures
            final(self)@ == old(self)@ + text@,
    {
        self.content.append(text);
    }

    /// Consumes the draft and moves it under review; the text carries over.
    pub fn request_review(self) -> (next: PendingReviewPost)
        ensures
            next@ == self@,
    {
        PendingReviewPost { content: self.content }
    }
}

impl PendingReviewPost {
    /// Consumes the pending value and publishes it; the text carries over.
    pub fn approve(self) -> (published: Post)
        ensures
            published@ == self@,
    {
        Post { content: self.content }
    }

    /// Consumes the pending value and returns it to Draft; the accumulated
    /// text is preserved, not erased.
    pub fn reject(self) -> (draft: DraftPost)
        ensures
            draft@ == self@,
    {
        DraftPost { content: self.content }
    }
}

} // verus!
