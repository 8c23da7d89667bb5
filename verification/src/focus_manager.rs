//! The focus manager: focus policy, currently focused window and workspace,
//! and the ordered tag-visit history.
//!
//! The tag history is kept most-recent-first and never contains the same tag
//! id twice: re-activating a tag removes any existing occurrence and inserts
//! the tag at the front, preserving the relative order of the remainder.

use vstd::prelude::*;

use crate::models::FocusBehaviour;
use crate::models::TagId;
use crate::models::WindowHandle;
use crate::models::valid_tag_id;

verus! {

/// `s` with every occurrence of `tag` removed, the order of the remainder
/// kept.
pub open spec fn remove_tag(s: Seq<TagId>, tag: TagId) -> Seq<TagId>
    decreases s.len(),
{
    if s.len() == 0 {
        Seq::empty()
    } else if s[0] == tag {
        remove_tag(s.skip(1), tag)
    } else {
        seq![s[0]] + remove_tag(s.skip(1), tag)
    }
}

/// The history after re-activating `tag` with push semantics: any existing
/// occurrence of `tag` is removed and `tag` is inserted at the front.
pub open spec fn promote_hist(s: Seq<TagId>, tag: TagId) -> Seq<TagId> {
    seq![tag] + remove_tag(s, tag)
}

/// No tag id occurs twice.
pub open spec fn distinct_hist(s: Seq<TagId>) -> bool {
    forall|i: int, j: int| 0 <= i < j < s.len() ==> s[i] != s[j]
}

/// The history after re-activating `tag` with swap semantics, chosen here as
/// swap-in-place: when `tag` already occurs, the front entry and `tag` trade
/// positions; when it does not, `tag` is inserted at the front like a push.
pub open spec fn swap_hist_post(pre: Seq<TagId>, post: Seq<TagId>, tag: TagId) -> bool {
    if pre.contains(tag) {
        exists|k: int|
            0 <= k < pre.len() && pre[k] == tag && (forall|j: int| 0 <= j < k ==> pre[j] != tag)
                && post == pre.update(k, pre[0]).update(0, tag)
    } else {
        post == seq![tag] + pre
    }
}

/// Removing a tag from a one-element history.
pub proof fn lemma_remove_tag_singleton(t: TagId, tag: TagId)
    ensures
        remove_tag(seq![t], tag) == (if t == tag {
            Seq::<TagId>::empty()
        } else {
            seq![t]
        }),
{
    assert(seq![t].skip(1) =~= Seq::<TagId>::empty());
    assert(remove_tag(Seq::<TagId>::empty(), tag) == Seq::<TagId>::empty());
    if t != tag {
        assert(seq![t] + Seq::<TagId>::empty() =~= seq![t]);
    }
}

/// Removing a tag distributes over concatenation.
pub proof fn lemma_remove_tag_concat(a: Seq<TagId>, b: Seq<TagId>, tag: TagId)
    ensures
        remove_tag(a + b, tag) == remove_tag(a, tag) + remove_tag(b, tag),
    decreases a.len(),
{
    if a.len() == 0 {
        assert(a + b =~= b);
        assert(remove_tag(a, tag) + remove_tag(b, tag) =~= remove_tag(b, tag));
    } else {
        assert((a + b).len() > 0);
        assert((a + b)[0] == a[0]);
        assert((a + b).skip(1) =~= a.skip(1) + b);
        lemma_remove_tag_concat(a.skip(1), b, tag);
        if a[0] == tag {
            assert(remove_tag(a + b, tag) == remove_tag(a.skip(1) + b, tag));
        } else {
            assert(remove_tag(a + b, tag) == seq![a[0]] + (remove_tag(a.skip(1), tag)
                + remove_tag(b, tag)));
            assert(seq![a[0]] + (remove_tag(a.skip(1), tag) + remove_tag(b, tag)) =~= (seq![a[0]]
                + remove_tag(a.skip(1), tag)) + remove_tag(b, tag));
        }
    }
}

/// Membership in the removal result: everything but the removed tag survives.
pub proof fn lemma_remove_tag_membership(s: Seq<TagId>, tag: TagId)
    ensures
        forall|x: TagId| #[trigger] remove_tag(s, tag).contains(x) <==> (s.contains(x) && x != tag),
    decreases s.len(),
{
    if s.len() == 0 {
    } else {
        lemma_remove_tag_membership(s.skip(1), tag);
        assert forall|x: TagId| #[trigger] s.contains(x) <==> (s[0] == x || s.skip(1).contains(x)) by {
            assert(s.skip(1).len() == s.len() - 1);
            if s.contains(x) {
                let i = choose|i: int| 0 <= i < s.len() && s[i] == x;
                if i > 0 {
                    assert(s.skip(1)[i - 1] == x);
                }
            }
            if s.skip(1).contains(x) {
                let i = choose|i: int| 0 <= i < s.skip(1).len() && s.skip(1)[i] == x;
                assert(s[i + 1] == x);
            }
        }
        if s[0] == tag {
        } else {
            assert forall|x: TagId| #[trigger] remove_tag(s, tag).contains(x) <==> (s[0] == x
                || remove_tag(s.skip(1), tag).contains(x)) by {
                let r = seq![s[0]] + remove_tag(s.skip(1), tag);
                assert(remove_tag(s, tag) == r);
                if r.contains(x) {
                    let i = choose|i: int| 0 <= i < r.len() && r[i] == x;
                    if i > 0 {
                        assert(remove_tag(s.skip(1), tag)[i - 1] == x);
                    }
                }
                if remove_tag(s.skip(1), tag).contains(x) {
                    let i = choose|i: int|
                        0 <= i < remove_tag(s.skip(1), tag).len() && remove_tag(s.skip(1), tag)[i]
                            == x;
                    assert(r[i + 1] == x);
                }
                assert(r[0] == s[0]);
            }
        }
    }
}

/// Removal keeps the history free of duplicates.
pub proof fn lemma_remove_tag_distinct(s: Seq<TagId>, tag: TagId)
    requires
        distinct_hist(s),
    ensures
        distinct_hist(remove_tag(s, tag)),
    decreases s.len(),
{
    if s.len() == 0 {
    } else {
        assert(distinct_hist(s.skip(1)));
        lemma_remove_tag_distinct(s.skip(1), tag);
        if s[0] == tag {
        } else {
            lemma_remove_tag_membership(s.skip(1), tag);
            let r = seq![s[0]] + remove_tag(s.skip(1), tag);
            assert(!s.skip(1).contains(s[0])) by {
                if s.skip(1).contains(s[0]) {
                    let i = choose|i: int| 0 <= i < s.skip(1).len() && s.skip(1)[i] == s[0];
                    assert(s[i + 1] == s[0]);
                }
            }
            assert(!remove_tag(s.skip(1), tag).contains(s[0]));
            assert forall|i: int, j: int| 0 <= i < j < r.len() implies r[i] != r[j] by {
                if i == 0 {
                    assert(remove_tag(s.skip(1), tag)[j - 1] == r[j]);
                    assert(remove_tag(s.skip(1), tag).contains(r[j]));
                } else {
                    assert(r[i] == remove_tag(s.skip(1), tag)[i - 1]);
                    assert(r[j] == remove_tag(s.skip(1), tag)[j - 1]);
                }
            }
        }
    }
}

/// Removing a tag that does not occur changes nothing.
pub proof fn lemma_remove_tag_absent(s: Seq<TagId>, tag: TagId)
    requires
        !s.contains(tag),
    ensures
        remove_tag(s, tag) == s,
    decreases s.len(),
{
    if s.len() == 0 {
        assert(remove_tag(s, tag) =~= s);
    } else {
        assert(s[0] != tag);
        assert(!s.skip(1).contains(tag)) by {
            if s.skip(1).contains(tag) {
                let i = choose|i: int| 0 <= i < s.skip(1).len() && s.skip(1)[i] == tag;
                assert(s[i + 1] == tag);
            }
        }
        lemma_remove_tag_absent(s.skip(1), tag);
        assert(seq![s[0]] + s.skip(1) =~= s);
    }
}

/// Law: re-activating the same tag twice in a row with push semantics leaves
/// the history exactly as one activation does: the tag stands in front, it
/// occurs nowhere else, and a duplicate-free history stays duplicate-free.
pub proof fn lemma_promote_hist_idempotent(s: Seq<TagId>, tag: TagId)
    ensures
        promote_hist(promote_hist(s, tag), tag) == promote_hist(s, tag),
        promote_hist(s, tag).len() >= 1,
        promote_hist(s, tag)[0] == tag,
        forall|i: int| 1 <= i < promote_hist(s, tag).len() ==> promote_hist(s, tag)[i] != tag,
        distinct_hist(s) ==> distinct_hist(promote_hist(s, tag)),
{
    let once = promote_hist(s, tag);
    lemma_remove_tag_membership(s, tag);
    lemma_remove_tag_concat(seq![tag], remove_tag(s, tag), tag);
    lemma_remove_tag_singleton(tag, tag);
    assert(!remove_tag(s, tag).contains(tag));
    lemma_remove_tag_absent(remove_tag(s, tag), tag);
    assert(remove_tag(once, tag) == Seq::<TagId>::empty() + remove_tag(remove_tag(s, tag), tag));
    assert(Seq::<TagId>::empty() + remove_tag(s, tag) =~= remove_tag(s, tag));
    assert forall|i: int| 1 <= i < once.len() implies once[i] != tag by {
        assert(once[i] == remove_tag(s, tag)[i - 1]);
        assert(remove_tag(s, tag).contains(once[i]));
    }
    if distinct_hist(s) {
        lemma_remove_tag_distinct(s, tag);
        assert forall|i: int, j: int| 0 <= i < j < once.len() implies once[i] != once[j] by {
            if i == 0 {
                assert(once[j] == remove_tag(s, tag)[j - 1]);
                assert(remove_tag(s, tag).contains(once[j]));
            } else {
                assert(once[i] == remove_tag(s, tag)[i - 1]);
                assert(once[j] == remove_tag(s, tag)[j - 1]);
            }
        }
    }
}

/// A push keeps the history duplicate-free and keeps every entry a valid tag
/// id.
pub proof fn lemma_promote_hist_wf(s: Seq<TagId>, tag: TagId, n_tags: int)
    requires
        distinct_hist(s),
        forall|i: int| 0 <= i < s.len() ==> valid_tag_id(#[trigger] s[i], n_tags),
        valid_tag_id(tag, n_tags),
    ensures
        distinct_hist(promote_hist(s, tag)),
        forall|i: int|
            0 <= i < promote_hist(s, tag).len() ==> valid_tag_id(
                #[trigger] promote_hist(s, tag)[i],
                n_tags,
            ),
{
    lemma_promote_hist_idempotent(s, tag);
    lemma_remove_tag_membership(s, tag);
    let once = promote_hist(s, tag);
    assert forall|i: int| 0 <= i < once.len() implies valid_tag_id(#[trigger] once[i], n_tags) by {
        if i > 0 {
            assert(once[i] == remove_tag(s, tag)[i - 1]);
            assert(remove_tag(s, tag).contains(once[i]));
            assert(s.contains(once[i]));
            let j = choose|j: int| 0 <= j < s.len() && s[j] == once[i];
            assert(valid_tag_id(s[j], n_tags));
        }
    }
}

/// A swap keeps the history duplicate-free and keeps every entry a valid tag
/// id.
pub proof fn lemma_swap_hist_wf(pre: Seq<TagId>, post: Seq<TagId>, tag: TagId, n_tags: int)
    requires
        swap_hist_post(pre, post, tag),
        distinct_hist(pre),
        forall|i: int| 0 <= i < pre.len() ==> valid_tag_id(#[trigger] pre[i], n_tags),
        valid_tag_id(tag, n_tags),
    ensures
        distinct_hist(post),
        forall|i: int| 0 <= i < post.len() ==> valid_tag_id(#[trigger] post[i], n_tags),
{
    if pre.contains(tag) {
        let k = choose|k: int|
            0 <= k < pre.len() && pre[k] == tag && (forall|j: int| 0 <= j < k ==> pre[j] != tag)
                && post == pre.update(k, pre[0]).update(0, tag);
        assert(post.len() == pre.len());
        assert forall|i: int| 0 <= i < post.len() implies valid_tag_id(
            #[trigger] post[i],
            n_tags,
        ) by {
            assert(post[i] == (if i == 0 {
                tag
            } else if i == k {
                pre[0]
            } else {
                pre[i]
            }));
        }
        assert forall|i: int, j: int| 0 <= i < j < post.len() implies post[i] != post[j] by {
            assert(post[i] == (if i == 0 {
                tag
            } else if i == k {
                pre[0]
            } else {
                pre[i]
            }));
            assert(post[j] == (if j == k {
                pre[0]
            } else {
                pre[j]
            }));
            assert(pre[k] == tag);
        }
    } else {
        assert(post.len() == pre.len() + 1);
        assert forall|i: int| 0 <= i < post.len() implies valid_tag_id(
            #[trigger] post[i],
            n_tags,
        ) by {
            if i > 0 {
                assert(post[i] == pre[i - 1]);
            }
        }
        assert forall|i: int, j: int| 0 <= i < j < post.len() implies post[i] != post[j] by {
            if i == 0 {
                assert(post[j] == pre[j - 1]);
                assert(pre.contains(pre[j - 1]));
            } else {
                assert(post[i] == pre[i - 1]);
                assert(post[j] == pre[j - 1]);
            }
        }
    }
}

/// Tracks current focus, the focus policy, and the tag-visit history.
#[derive(Clone, Debug)]
pub struct FocusManager {
    /// The configured focus policy.
    pub behaviour: FocusBehaviour,
    /// The window that currently holds input focus, if any.
    pub focused_window: Option<WindowHandle>,
    /// Index of the currently focused workspace, if any.
    pub focused_workspace: Option<usize>,
    /// Previously active tag ids, most recent first, free of duplicates.
    pub tag_history: Vec<TagId>,
}

impl FocusManager {
    pub fn new(behaviour: FocusBehaviour) -> (fm: FocusManager)
        ensures
            fm.behaviour == behaviour,
            fm.focused_window is None,
            fm.focused_workspace is None,
            fm.tag_history@ == Seq::<TagId>::empty(),
    {
        FocusManager {
            behaviour,
            focused_window: None,
            focused_workspace: None,
            tag_history: Vec::new(),
        }
    }

    /// Re-activates `tag` with push semantics: any existing occurrence is
    /// removed, then `tag` is inserted at the front.
    pub fn promote_tag(&mut self, tag: TagId)
        ensures
            final(self).tag_history@ == promote_hist(old(self).tag_history@, tag),
            final(self).behaviour == old(self).behaviour,
            final(self).focused_window == old(self).focused_window,
            final(self).focused_workspace == old(self).focused_workspace,
    {
        let ghost orig = self.tag_history@;
        let mut rebuilt: Vec<TagId> = Vec::new();
        rebuilt.push(tag);
        proof {
            assert(orig.take(0) =~= Seq::<TagId>::empty());
            assert(rebuilt@ =~= seq![tag] + remove_tag(orig.take(0), tag));
        }
        let n = self.tag_history.len();
        let mut i: usize = 0;
        while i < n
            invariant
                i <= n,
                n == orig.len(),
                orig == old(self).tag_history@,
                self.tag_history@ == orig,
                self.behaviour == old(self).behaviour,
                self.focused_window == old(self).focused_window,
                self.focused_workspace == old(self).focused_workspace,
                rebuilt@ == seq![tag] + remove_tag(orig.take(i as int), tag),
            decreases n - i,
        {
            let t = self.tag_history[i];
            proof {
                lemma_remove_tag_concat(orig.take(i as int), seq![t], tag);
                lemma_remove_tag_singleton(t, tag);
                assert(orig.take(i as int) + seq![t] =~= orig.take(i as int + 1));
                if t == tag {
                    assert(remove_tag(orig.take(i as int), tag) + Seq::<TagId>::empty()
                        =~= remove_tag(orig.take(i as int), tag));
                }
            }
            if t != tag {
                rebuilt.push(t);
                proof {
                    assert((seq![tag] + remove_tag(orig.take(i as int), tag)).push(t) =~= seq![tag]
                        + (remove_tag(orig.take(i as int), tag) + seq![t]));
                }
            }
            i += 1;
        }
        proof {
            assert(orig.take(n as int) =~= orig);
        }
        self.tag_history = rebuilt;
    }

    /// Re-activates `tag` with swap semantics (swap-in-place): when `tag`
    /// already occurs, the front entry and `tag` trade positions; when it
    /// does not, `tag` is inserted at the front.
    pub fn swap_tag(&mut self, tag: TagId)
        ensures
            swap_hist_post(old(self).tag_history@, final(self).tag_history@, tag),
            final(self).behaviour == old(self).behaviour,
            final(self).focused_window == old(self).focused_window,
            final(self).focused_workspace == old(self).focused_workspace,
    {
        let ghost orig = self.tag_history@;
        let n = self.tag_history.len();
        let mut i: usize = 0;
        while i < n
            invariant
                i <= n,
                n == orig.len(),
                orig == old(self).tag_history@,
                self.tag_history@ == orig,
                self.behaviour == old(self).behaviour,
                self.focused_window == old(self).focused_window,
                self.focused_workspace == old(self).focused_workspace,
                forall|j: int| 0 <= j < i ==> orig[j] != tag,
            decreases n - i,
        {
            if self.tag_history[i] == tag {
                let front = self.tag_history[0];
                let _ = self.tag_history.remove(i);
                self.tag_history.insert(i, front);
                proof {
                    assert(self.tag_history@ =~= orig.update(i as int, front));
                }
                let _ = self.tag_history.remove(0);
                self.tag_history.insert(0, tag);
                proof {
                    assert(front == orig[0]);
                    assert(self.tag_history@ =~= orig.update(i as int, orig[0]).update(0, tag));
                    assert(orig.contains(tag)) by {
                        assert(orig[i as int] == tag);
                    }
                    assert((i as int) < orig.len() && orig[i as int] == tag && (forall|j: int|
                        0 <= j < i as int ==> orig[j] != tag) && self.tag_history@ == orig.update(
                        i as int,
                        orig[0],
                    ).update(0, tag));
                    assert(swap_hist_post(orig, self.tag_history@, tag));
                }
                return ;
            }
            i += 1;
        }
        proof {
            assert(!orig.contains(tag)) by {
                if orig.contains(tag) {
                    let k = choose|k: int| 0 <= k < orig.len() && orig[k] == tag;
                    assert(orig[k] != tag);
                }
            }
        }
        self.tag_history.insert(0, tag);
        proof {
            assert(self.tag_history@ =~= seq![tag] + orig);
        }
    }
}

} // verus!
