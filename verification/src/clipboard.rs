//! Watching the clipboard for content to share.

use vstd::prelude::*;
use crate::text::text_views;
use crate::ClipboardData;

verus! {

/// Milliseconds between two looks at the clipboard.
pub const CLIPBOARD_POLL_MS: u64 = 500;

/// What a clipboard holds, with its texts as sequences of characters.
pub struct ClipboardDataView {
    pub text: Option<Seq<char>>,
    pub image: Option<Seq<u8>>,
    pub files: Option<Seq<Seq<char>>>,
}

impl View for ClipboardData {
    type V = ClipboardDataView;

    open spec fn view(&self) -> ClipboardDataView {
        ClipboardDataView {
            text: match self.text {
                Some(text) => Some(text@),
                None => None,
            },
            image: match self.image {
                Some(image) => Some(image@),
                None => None,
            },
            files: match self.files {
                Some(files) => Some(text_views(files@)),
                None => None,
            },
        }
    }
}

/// Whether two lists of bytes hold the same bytes.
fn same_bytes(a: &Vec<u8>, b: &Vec<u8>) -> (same: bool)
    ensures
        same == (a@ == b@),
{
    if a.len() != b.len() {
        return false;
    }
    let n = a.len();
    let mut i: usize = 0;
    while i < n
        invariant
            i <= n,
            n == a@.len(),
            n == b@.len(),
            forall|j: int| 0 <= j < i ==> a@[j] == b@[j],
        decreases n - i,
    {
        if a[i] != b[i] {
            return false;
        }
        i = i + 1;
    }
    assert(a@ =~= b@);
    true
}

/// Whether two lists of texts read the same.
fn same_texts(a: &Vec<String>, b: &Vec<String>) -> (same: bool)
    ensures
        same == (text_views(a@) == text_views(b@)),
{
    if a.len() != b.len() {
        assert(text_views(a@).len() != text_views(b@).len());
        return false;
    }
    let n = a.len();
    let mut i: usize = 0;
    while i < n
        invariant
            i <= n,
            n == a@.len(),
            n == b@.len(),
            forall|j: int| 0 <= j < i ==> a@[j]@ == b@[j]@,
        decreases n - i,
    {
        if a[i] != b[i] {
            assert(text_views(a@)[i as int] != text_views(b@)[i as int]);
            return false;
        }
        i = i + 1;
    }
    assert(text_views(a@) =~= text_views(b@));
    true
}

/// Whether two clipboards hold the same content.
pub fn same_content(a: &ClipboardData, b: &ClipboardData) -> (same: bool)
    ensures
        same == (a@ == b@),
{
    let text = match (&a.text, &b.text) {
        (Some(x), Some(y)) => *x == *y,
        (None, None) => true,
        _ => false,
    };
    let image = match (&a.image, &b.image) {
        (Some(x), Some(y)) => same_bytes(x, y),
        (None, None) => true,
        _ => false,
    };
    let files = match (&a.files, &b.files) {
        (Some(x), Some(y)) => same_texts(x, y),
        (None, None) => true,
        _ => false,
    };
    text && image && files
}

/// The watcher of the local clipboard.
#[derive(Debug)]
pub struct ClipboardManager {
    pub sharing_enabled: bool,
    pub last_content: Option<ClipboardData>,
}

impl ClipboardManager {
    /// Whether content that reads as `content` is news to a watcher that
    /// shares and has last seen `last`.
    pub open spec fn spec_is_news(sharing: bool, last: Option<ClipboardData>, content: ClipboardDataView)
        -> bool {
        sharing && match last {
            Some(seen) => seen@ != content,
            None => true,
        }
    }

    /// A watcher that does not share and has seen nothing.
    pub fn new() -> (manager: Self)
        ensures
            !manager.sharing_enabled,
            manager.last_content is None,
    {
        ClipboardManager { sharing_enabled: false, last_content: None }
    }

    /// Switches sharing on or off.
    pub fn enable_sharing(&mut self, enable: bool)
        ensures
            final(self).sharing_enabled == enable,
            final(self).last_content == old(self).last_content,
    {
        self.sharing_enabled = enable;
    }

    /// Takes what a look at the clipboard found. While sharing is on, content
    /// that differs from what was last seen is remembered and is to be sent
    /// to the peers; says whether it is.
    pub fn observe(&mut self, content: ClipboardData) -> (changed: bool)
        ensures
            changed == Self::spec_is_news(
                old(self).sharing_enabled,
                old(self).last_content,
                content@,
            ),
            final(self).sharing_enabled == old(self).sharing_enabled,
            final(self).last_content == (if changed {
                Some(content)
            } else {
                old(self).last_content
            }),
    {
        if !self.sharing_enabled {
            return false;
        }
        let changed = match &self.last_content {
            Some(seen) => !same_content(seen, &content),
            None => true,
        };
        if changed {
            self.last_content = Some(content);
        }
        changed
    }
}

} // verus!
