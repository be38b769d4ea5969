use crate::model::{empty_tags, lemma_split_on_len, split_on, Tags};
use crate::text::{chars_of, insert_sorted, push_char, strictly_sorted, views};
use vstd::prelude::*;
use vstd::utf8::{encode_scalar, encode_utf8};

verus! {

/// The last comma-separated segment of an entry: the tag being typed.
pub open spec fn last_segment(entry: Seq<char>) -> Seq<char> {
    split_on(entry, ',').last()
}

/// The tags that complete `prefix`.
pub open spec fn completing(tags: Set<Seq<char>>, prefix: Seq<char>) -> Set<Seq<char>> {
    tags.filter(|t: Seq<char>| prefix.is_prefix_of(t))
}

/// The candidates for completing `entry`: when the tag being typed is at least two bytes
/// long, the tags that it starts; otherwise none.
pub open spec fn candidate_set(tags: Set<Seq<char>>, entry: Seq<char>) -> Set<Seq<char>> {
    if encode_utf8(last_segment(entry)).len() >= 2 {
        completing(tags, last_segment(entry))
    } else {
        Set::empty()
    }
}

/// Completion offers only known tags, and each of them starts with the tag being typed;
/// nothing is offered while that tag is shorter than two bytes.
pub proof fn lemma_candidates_extend_typed_tag(tags: Set<Seq<char>>, entry: Seq<char>, t: Seq<char>)
    requires
        candidate_set(tags, entry).contains(t),
    ensures
        tags.contains(t),
        last_segment(entry).is_prefix_of(t),
        encode_utf8(last_segment(entry)).len() >= 2,
{
}

/// The encoding of two texts one after the other is the encoding of the first, then that of
/// the second.
proof fn lemma_encode_concat(p: Seq<char>, q: Seq<char>)
    ensures
        encode_utf8(p + q) == encode_utf8(p) + encode_utf8(q),
    decreases p.len(),
{
    if p.len() > 0 {
        lemma_encode_concat(p.drop_first(), q);
        assert((p + q).drop_first() =~= p.drop_first() + q);
        assert(encode_utf8(p) + encode_utf8(q) =~= encode_scalar(p[0] as u32) + (encode_utf8(
            p.drop_first(),
        ) + encode_utf8(q)));
    } else {
        assert(p + q =~= q);
    }
}

/// A text without commas is a single segment.
proof fn lemma_no_comma_single_segment(s: Seq<char>)
    requires
        !s.contains(','),
    ensures
        split_on(s, ',') == seq![s],
    decreases s.len(),
{
    if s.len() > 0 {
        let init = s.drop_last();
        assert(!init.contains(',')) by {
            if init.contains(',') {
                let k = choose|k: int| 0 <= k < init.len() && init[k] == ',';
                assert(s[k] == ',');
            }
        }
        lemma_no_comma_single_segment(init);
        assert(s.last() != ',') by {
            assert(s[s.len() - 1] == s.last());
        }
        assert(init.push(s.last()) =~= s);
        assert(seq![init].update(0, init.push(s.last())) =~= seq![s]);
    } else {
        assert(s =~= Seq::<char>::empty());
        assert(seq![Seq::<char>::empty()] =~= seq![s]);
    }
}

/// Completion settles: where the tag being typed has a single candidate, completing that
/// candidate offers that candidate alone again (for tags without commas).
pub proof fn lemma_completion_settles(tags: Set<Seq<char>>, entry: Seq<char>, t: Seq<char>)
    requires
        forall|u: Seq<char>| tags.contains(u) ==> !u.contains(','),
        candidate_set(tags, entry) == set![t],
    ensures
        candidate_set(tags, t) == set![t],
{
    let p = last_segment(entry);
    assert(set![t].contains(t));
    assert(tags.contains(t) && p.is_prefix_of(t));
    lemma_no_comma_single_segment(t);
    assert(last_segment(t) == t);
    lemma_encode_concat(p, t.subrange(p.len() as int, t.len() as int));
    assert(p + t.subrange(p.len() as int, t.len() as int) =~= t);
    assert(encode_utf8(t).len() >= 2);
    assert forall|u: Seq<char>| #[trigger] candidate_set(tags, t).contains(u) implies u == t by {
        assert(t.is_prefix_of(u));
        assert(p.is_prefix_of(u)) by {
            assert forall|k: int| 0 <= k < p.len() implies p[k] == u[k] by {
                assert(p[k] == t[k]);
            }
        }
        assert(candidate_set(tags, entry).contains(u));
    }
    assert(candidate_set(tags, t) =~= set![t]);
}

/// Offers the known tags that complete the tag being typed.
pub struct CompletionDispenser {
    tags: Tags,
}

impl View for CompletionDispenser {
    type V = Set<Seq<char>>;

    closed spec fn view(&self) -> Set<Seq<char>> {
        self.tags@
    }
}

impl CompletionDispenser {
    pub closed spec fn wf(&self) -> bool {
        self.tags.wf()
    }

    /// A dispenser with no tag.
    pub fn new() -> (r: Self)
        ensures
            r.wf(),
            r@ == Set::<Seq<char>>::empty(),
    {
        CompletionDispenser { tags: empty_tags() }
    }

    /// A dispenser of the given tags.
    pub fn new_with(tags: Tags) -> (r: Self)
        requires
            tags.wf(),
        ensures
            r.wf(),
            r@ == tags@,
    {
        Self { tags }
    }

    /// Whether `p` starts `t`.
    fn starts_with(t: &String, p: &Vec<char>) -> (r: bool)
        ensures
            r == p@.is_prefix_of(t@),
    {
        let tc = chars_of(t.as_str());
        if p.len() > tc.len() {
            return false;
        }
        let mut i: usize = 0;
        while i < p.len()
            invariant
                tc@ == t@,
                p.len() <= tc.len(),
                i <= p.len(),
                forall|j: int| 0 <= j < i ==> p@[j] == tc@[j],
            decreases p.len() - i,
        {
            if p[i] != tc[i] {
                return false;
            }
            i = i + 1;
        }
        proof {
            assert(p@ =~= t@.subrange(0, p@.len() as int));
        }
        true
    }

    /// The tags that complete the last comma-separated segment of `entry`, in lexicographic
    /// order, when that segment is at least two bytes long; none otherwise.
    pub fn candidates(&self, entry: &str) -> (r: Vec<String>)
        requires
            self.wf(),
        ensures
            strictly_sorted(views(r@)),
            views(r@).to_set() == candidate_set(self@, entry@),
    {
        let chars = chars_of(entry);
        let mut last = String::new();
        let mut last_chars: Vec<char> = Vec::new();
        let mut i: usize = 0;
        while i < chars.len()
            invariant
                chars@ == entry@,
                i <= chars.len(),
                last@ == last_chars@,
                last@ == last_segment(entry@.take(i as int)),
            decreases chars.len() - i,
        {
            let c = chars[i];
            proof {
                assert(entry@.take(i + 1).drop_last() =~= entry@.take(i as int));
                assert(entry@.take(i + 1).last() == c);
                lemma_split_on_len(entry@.take(i as int), ',');
            }
            if c == ',' {
                last = String::new();
                last_chars = Vec::new();
            } else {
                push_char(&mut last, c);
                last_chars.push(c);
            }
            i = i + 1;
        }
        proof {
            assert(entry@.take(chars.len() as int) =~= entry@);
        }
        let mut result: Vec<String> = Vec::new();
        if last.as_str().as_bytes().len() < 2 {
            proof {
                assert(views(result@).to_set() =~= Set::<Seq<char>>::empty());
            }
            return result;
        }
        let ghost items = self.tags.items();
        proof {
            self.tags.lemma_items();
        }
        let n = self.tags.len_items();
        let mut k: usize = 0;
        proof {
            assert(views(result@).to_set() =~= items.take(0).to_set().filter(
                |t: Seq<char>| last@.is_prefix_of(t),
            ));
        }
        while k < n
            invariant
                n == items.len(),
                items == self.tags.items(),
                items.no_duplicates(),
                k <= n,
                strictly_sorted(views(result@)),
                views(result@).to_set() == items.take(k as int).to_set().filter(
                    |t: Seq<char>| last@.is_prefix_of(t),
                ),
                last@ == last_chars@,
            decreases n - k,
        {
            let tag = self.tags.get(k);
            proof {
                assert(items.take(k + 1) == items.take(k as int).push(items[k as int]));
                items.take(k as int).lemma_push_to_set_commute(items[k as int]);
            }
            if Self::starts_with(tag, &last_chars) {
                proof {
                    if views(result@).contains(tag@) {
                        assert(views(result@).to_set().contains(tag@));
                        let j = choose|j: int| 0 <= j < k && items.take(k as int)[j] == tag@;
                        assert(items[j] == items[k as int]);
                    }
                }
                let copy = tag.clone();
                insert_sorted(&mut result, copy);
                proof {
                    assert(items.take(k + 1).to_set().filter(|t: Seq<char>| last@.is_prefix_of(t))
                        =~= items.take(k as int).to_set().filter(|t: Seq<char>| last@.is_prefix_of(t)).insert(tag@));
                }
            } else {
                proof {
                    assert(items.take(k + 1).to_set().filter(|t: Seq<char>| last@.is_prefix_of(t))
                        =~= items.take(k as int).to_set().filter(|t: Seq<char>| last@.is_prefix_of(t)));
                }
            }
            k = k + 1;
        }
        proof {
            assert(items.take(n as int) == items);
            assert(self@ == items.to_set());
        }
        result
    }
}

impl Default for CompletionDispenser {
    fn default() -> (r: Self)
        ensures
            r.wf(),
            r@ == Set::<Seq<char>>::empty(),
    {
        CompletionDispenser::new()
    }
}

} // verus!
