use vstd::prelude::*;

verus! {

/// Number of tags (virtual desktops) a window can be placed on.
pub const TAG_COUNT: usize = 9;

/// The set of tags that are shown, or that a client window belongs to.
#[derive(Clone, Copy, Debug, PartialEq, Eq)]
pub struct TagSet {
    pub data: [bool; 9],
}

/// Whether tag `j` is set in `t`.
pub open spec fn has_tag(t: TagSet, j: int) -> bool {
    t.data@[j]
}

/// Whether the two tag sets have at least one tag in common.
pub open spec fn shares_tag(a: TagSet, b: TagSet) -> bool {
    exists|j: int| 0 <= j < 9 && #[trigger] has_tag(a, j) && has_tag(b, j)
}

/// The smallest tag that both sets hold (meaningful when `shares_tag(a, b)`).
pub open spec fn first_shared_tag(a: TagSet, b: TagSet) -> int {
    choose|j: int|
        0 <= j < 9 && has_tag(a, j) && has_tag(b, j) && (forall|k: int|
            0 <= k < j ==> !(#[trigger] has_tag(a, k) && has_tag(b, k)))
}

/// The tag set in which only `tag` is set.
pub open spec fn only_tag(tag: int) -> Seq<bool> {
    Seq::new(9, |i: int| i == tag)
}

/// The tag set holding only `tag`, as a value.
pub open spec fn tags_only(tag: int) -> TagSet {
    TagSet {
        data: vstd::array::spec_array_update(
            vstd::array::spec_array_fill_for_copy_type::<bool, 9>(false),
            tag,
            true,
        ),
    }
}

/// A tag set is determined by which tags it holds.
pub proof fn lemma_tags_ext(a: TagSet, b: TagSet)
    requires
        a.data@ == b.data@,
    ensures
        a == b,
{
    assert(a.data =~= b.data);
}

/// `tags_only(tag)` holds exactly `tag`.
pub proof fn lemma_tags_only(tag: int)
    requires
        0 <= tag < 9,
    ensures
        tags_only(tag).data@ == only_tag(tag),
{
    let f = vstd::array::spec_array_fill_for_copy_type::<bool, 9>(false);
    assert(f@.len() == 9);
    assert(tags_only(tag).data@ =~= only_tag(tag));
}

impl Default for TagSet {
    /// The initial tag set: only the first tag is shown.
    fn default() -> (r: Self)
        ensures
            r.data@ == only_tag(0),
    {
        let r = TagSet { data: [true, false, false, false, false, false, false, false, false] };
        assert(r.data@ =~= only_tag(0));
        r
    }
}

impl TagSet {
    /// Makes `tag` part of the set, leaving the others as they are.
    pub fn view_tag(&mut self, tag: usize)
        requires
            tag < TAG_COUNT,
        ensures
            final(self).data@ == old(self).data@.update(tag as int, true),
    {
        self.data[tag] = true;
    }

    /// Removes `tag` from the set, leaving the others as they are.
    pub fn hide_tag(&mut self, tag: usize)
        requires
            tag < TAG_COUNT,
        ensures
            final(self).data@ == old(self).data@.update(tag as int, false),
    {
        self.data[tag] = false;
    }

    /// Clears every tag, then sets `tag`: afterwards `tag` is the only one set.
    pub fn switch_tag(&mut self, tag: usize)
        requires
            tag < TAG_COUNT,
        ensures
            final(self).data@ == only_tag(tag as int),
            *final(self) == tags_only(tag as int),
    {
        let mut i: usize = 0;
        while i < TAG_COUNT
            invariant
                i <= TAG_COUNT,
                forall|k: int| 0 <= k < i ==> !self.data@[k],
            decreases TAG_COUNT - i,
        {
            self.data[i] = false;
            i = i + 1;
        }
        self.data[tag] = true;
        assert(self.data@ =~= only_tag(tag as int));
        proof {
            lemma_tags_only(tag as int);
            lemma_tags_ext(*self, tags_only(tag as int));
        }
    }

    /// Whether `tag` is set.
    pub fn is_set(&self, tag: usize) -> (r: bool)
        requires
            tag < TAG_COUNT,
        ensures
            r == self.data@[tag as int],
    {
        self.data[tag]
    }
}

} // verus!
