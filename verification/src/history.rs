//! The recent keys of a tab, kept for matching gestures of several keys.
//!
//! The history grows by one key at a time. Once it holds more than
//! `MAX_BUFFER` keys, the next key first drops the oldest
//! `MAX_BUFFER - MIN_BUFFER` of them: one trim for many keys, not one shift
//! per key.

use crate::keys::KeyCode;
use crate::tab::{TabData, TabModel};
use vstd::prelude::*;

verus! {

/// The length above which the history is trimmed.
pub const MAX_BUFFER: usize = 30;

/// The length by which a trim falls short of `MAX_BUFFER`.
pub const MIN_BUFFER: usize = 10;

/// The history after `key` was recorded.
pub open spec fn spec_record(history: Seq<KeyCode>, key: KeyCode) -> Seq<KeyCode> {
    if history.len() > MAX_BUFFER {
        history.skip(MAX_BUFFER - MIN_BUFFER).push(key)
    } else {
        history.push(key)
    }
}

/// Whether the last keys of `history` are exactly `keys`.
pub open spec fn spec_ends_with(history: Seq<KeyCode>, keys: Seq<KeyCode>) -> bool {
    &&& keys.len() <= history.len()
    &&& history.skip(history.len() - keys.len()) == keys
}

/// Whether the last keys of `history` type exactly the characters of
/// `text`, one character key for each.
pub open spec fn spec_ends_with_text(history: Seq<KeyCode>, text: Seq<char>) -> bool {
    &&& text.len() <= history.len()
    &&& forall|i: int|
        0 <= i < text.len() ==> history[history.len() - text.len() + i] == KeyCode::Char(
            #[trigger] text[i],
        )
}

/// A history of at most `MAX_BUFFER + 1` keys stays that short, and the key
/// recorded last is its last key.
pub proof fn lemma_record_bounded(history: Seq<KeyCode>, key: KeyCode)
    ensures
        spec_record(history, key).last() == key,
        spec_ends_with(spec_record(history, key), seq![key]),
        history.len() <= MAX_BUFFER + 1 ==> spec_record(history, key).len() <= MAX_BUFFER + 1,
        history.len() <= MAX_BUFFER ==> spec_record(history, key).len() == history.len() + 1,
        history.len() > MAX_BUFFER ==> spec_record(history, key).len() == history.len() - (
        MAX_BUFFER - MIN_BUFFER) + 1,
{
    let after = spec_record(history, key);
    assert(after.skip(after.len() - 1) =~= seq![key]);
}

impl<V, O> TabModel<V, O> {
    /// This tab after `key` was recorded.
    pub open spec fn record(self, key: KeyCode) -> Self {
        TabModel { key_history: spec_record(self.key_history, key), ..self }
    }
}

impl<V, O> TabData<V, O> {
    /// Records `key` as the newest key.
    pub fn insert_key(&mut self, key: KeyCode)
        ensures
            final(self)@ == old(self)@.record(key),
            old(self)@.key_history.len() <= MAX_BUFFER + 1 ==> final(self)@.key_history.len()
                <= MAX_BUFFER + 1,
    {
        if self.key_history.len() > MAX_BUFFER {
            let kept = self.key_history.split_off(MAX_BUFFER - MIN_BUFFER);
            self.key_history = kept;
        }
        self.key_history.push(key);
    }

    /// Whether the last keys recorded are exactly `keys`. No keys at all
    /// match any history.
    pub fn key_match(&self, keys: Vec<KeyCode>) -> (matched: bool)
        ensures
            matched == spec_ends_with(self@.key_history, keys@),
    {
        let history = &self.key_history;
        if history.len() < keys.len() {
            return false;
        }
        let offset = history.len() - keys.len();
        let mut i: usize = 0;
        while i < keys.len()
            invariant
                i <= keys.len(),
                offset + keys.len() == history.len(),
                history@ == self@.key_history,
                forall|j: int| 0 <= j < i ==> history@[offset + j] == keys@[j],
            decreases keys.len() - i,
        {
            if history[offset + i] != keys[i] {
                assert(history@.skip(offset as int)[i as int] != keys@[i as int]);
                return false;
            }
            i += 1;
        }
        assert(history@.skip(offset as int) =~= keys@);
        true
    }

    /// Whether the last keys recorded type exactly the characters of
    /// `keys`.
    pub fn char_match(&self, keys: &str) -> (matched: bool)
        ensures
            matched == spec_ends_with_text(self@.key_history, keys@),
    {
        let n = keys.unicode_len();
        let mut codes: Vec<KeyCode> = Vec::new();
        let mut i: usize = 0;
        while i < n
            invariant
                i <= n,
                n == keys@.len(),
                codes@.len() == i,
                forall|j: int| 0 <= j < i ==> codes@[j] == KeyCode::Char(#[trigger] keys@[j]),
            decreases n - i,
        {
            let c = keys.get_char(i);
            codes.push(KeyCode::Char(c));
            i += 1;
        }
        let ghost typed = codes@;
        let matched = self.key_match(codes);
        proof {
            let history = self@.key_history;
            if n <= history.len() {
                let tail = history.skip(history.len() - n);
                if matched {
                    assert forall|j: int| 0 <= j < n implies history[history.len() - n + j]
                        == KeyCode::Char(#[trigger] keys@[j]) by {
                        assert(tail[j] == typed[j]);
                    }
                }
                if spec_ends_with_text(history, keys@) {
                    assert forall|j: int| 0 <= j < n implies tail[j] == typed[j] by {
                        assert(typed[j] == KeyCode::Char(keys@[j]));
                    }
                    assert(tail =~= typed);
                }
            }
        }
        matched
    }
}

} // verus!
