//! The report dispatcher's branching and message composition.
//!
//! Three posts are possible per run: if the first flag cell is set, the five
//! first-branch cells are concatenated — no separator between them — and sent
//! to the primary channel; if the second flag cell is set, the five
//! second-branch cells go, concatenated the same way, to the secondary
//! channel; and only when neither flag is set, a fixed prompt goes to the
//! fallback channel. The flag conditions are checked independently, first
//! branch first, so both flag-driven posts fire when both flags are set.

use vstd::prelude::*;
use crate::flags::spec_flag_is_true;

verus! {

/// A destination for one outward post.
#[derive(Clone, Copy, Debug, PartialEq, Eq, Structural)]
pub enum Channel {
    Primary,
    Secondary,
    Fallback,
}

/// One planned outward post: a destination and the message text.
pub struct Post {
    pub channel: Channel,
    pub text: String,
}

/// The mathematical value of a planned post.
pub ghost struct PostView {
    pub channel: Channel,
    pub text: Seq<char>,
}

impl View for Post {
    type V = PostView;

    open spec fn view(&self) -> PostView {
        PostView { channel: self.channel, text: self.text@ }
    }
}

impl DeepView for Post {
    type V = PostView;

    open spec fn deep_view(&self) -> PostView {
        self@
    }
}

/// Concatenation of cell texts in order, with no separator inserted.
pub open spec fn spec_concat_texts(parts: Seq<Seq<char>>) -> Seq<char>
    decreases parts.len(),
{
    if parts.len() == 0 {
        Seq::empty()
    } else {
        parts[0] + spec_concat_texts(parts.subrange(1, parts.len() as int))
    }
}

/// Splitting off the part at position `i` of what remains to concatenate.
proof fn lemma_concat_step(parts: Seq<Seq<char>>, i: int)
    requires
        0 <= i < parts.len(),
    ensures
        spec_concat_texts(parts.subrange(i, parts.len() as int)) == parts[i] + spec_concat_texts(
            parts.subrange(i + 1, parts.len() as int),
        ),
{
    let suf = parts.subrange(i, parts.len() as int);
    assert(suf.subrange(1, suf.len() as int) =~= parts.subrange(i + 1, parts.len() as int));
    assert(suf[0] == parts[i]);
}

/// Concatenates cell texts in order, inserting nothing between them.
pub fn concat_texts(parts: &Vec<String>) -> (r: String)
    ensures
        r@ == spec_concat_texts(parts.deep_view()),
{
    let ghost all = parts.deep_view();
    let mut r = String::new();
    let mut i: usize = 0;
    proof {
        assert(all.subrange(0, all.len() as int) =~= all);
        assert(r@ + spec_concat_texts(all) =~= spec_concat_texts(all));
    }
    while i < parts.len()
        invariant
            all == parts.deep_view(),
            i <= parts@.len(),
            all.len() == parts@.len(),
            spec_concat_texts(all) == r@ + spec_concat_texts(
                all.subrange(i as int, all.len() as int),
            ),
        decreases parts@.len() - i,
    {
        let ghost r0 = r@;
        r.append(parts[i].as_str());
        proof {
            lemma_concat_step(all, i as int);
            assert(r0 + (all[i as int] + spec_concat_texts(
                all.subrange(i + 1, all.len() as int),
            )) =~= r@ + spec_concat_texts(all.subrange(i + 1, all.len() as int)));
        }
        i = i + 1;
    }
    proof {
        assert(all.subrange(all.len() as int, all.len() as int) =~= Seq::<Seq<char>>::empty());
        assert(r@ + Seq::<char>::empty() =~= r@);
    }
    r
}

/// The fixed prompt posted when neither flag is set.
pub open spec fn spec_fallback_text() -> Seq<char> {
    "Please choose a report destination"@
}

/// The fixed prompt posted when neither flag is set.
pub fn fallback_text() -> (r: String)
    ensures
        r@ == spec_fallback_text(),
{
    String::from_str("Please choose a report destination")
}

/// All posts of one dispatcher run, in the order they are issued: the
/// first-branch post where its flag is set, then the second-branch post where
/// its flag is set, then the fallback prompt where neither flag is set.
pub open spec fn spec_plan(
    a: Seq<char>,
    b: Seq<char>,
    cells_a: Seq<Seq<char>>,
    cells_b: Seq<Seq<char>>,
) -> Seq<PostView> {
    let first = if spec_flag_is_true(a) {
        seq![PostView { channel: Channel::Primary, text: spec_concat_texts(cells_a) }]
    } else {
        Seq::empty()
    };
    let second = if spec_flag_is_true(b) {
        seq![PostView { channel: Channel::Secondary, text: spec_concat_texts(cells_b) }]
    } else {
        Seq::empty()
    };
    let third = if !spec_flag_is_true(a) && !spec_flag_is_true(b) {
        seq![PostView { channel: Channel::Fallback, text: spec_fallback_text() }]
    } else {
        Seq::empty()
    };
    first + second + third
}

/// Plans one dispatcher run from the two flag cells and the two branches'
/// cell texts: zero, one, or two flag-driven posts, or the single fallback
/// prompt when neither flag is set.
pub fn plan_report(flag_a: &str, flag_b: &str, cells_a: &Vec<String>, cells_b: &Vec<String>) -> (r:
    Vec<Post>)
    ensures
        r.deep_view() == spec_plan(flag_a@, flag_b@, cells_a.deep_view(), cells_b.deep_view()),
{
    let a = crate::flags::flag_is_true(flag_a);
    let b = crate::flags::flag_is_true(flag_b);
    let mut r: Vec<Post> = Vec::new();
    if a {
        r.push(Post { channel: Channel::Primary, text: concat_texts(cells_a) });
    }
    if b {
        r.push(Post { channel: Channel::Secondary, text: concat_texts(cells_b) });
    }
    if !a && !b {
        r.push(Post { channel: Channel::Fallback, text: fallback_text() });
    }
    proof {
        assert(r.deep_view() =~= spec_plan(
            flag_a@,
            flag_b@,
            cells_a.deep_view(),
            cells_b.deep_view(),
        ));
    }
    r
}

/// Law: with the first flag set and the second clear, the run posts exactly
/// one message — the concatenation of the first branch's cells, with no
/// separators — to the primary channel.
pub proof fn lemma_primary_only_post(
    a: Seq<char>,
    b: Seq<char>,
    cells_a: Seq<Seq<char>>,
    cells_b: Seq<Seq<char>>,
)
    requires
        spec_flag_is_true(a),
        !spec_flag_is_true(b),
    ensures
        spec_plan(a, b, cells_a, cells_b).len() == 1,
        spec_plan(a, b, cells_a, cells_b)[0].channel == Channel::Primary,
        spec_plan(a, b, cells_a, cells_b)[0].text == spec_concat_texts(cells_a),
{
}

/// Law: with both flags clear, the run posts exactly one message — the fixed
/// prompt — to the fallback channel.
pub proof fn lemma_fallback_only_post(
    a: Seq<char>,
    b: Seq<char>,
    cells_a: Seq<Seq<char>>,
    cells_b: Seq<Seq<char>>,
)
    requires
        !spec_flag_is_true(a),
        !spec_flag_is_true(b),
    ensures
        spec_plan(a, b, cells_a, cells_b).len() == 1,
        spec_plan(a, b, cells_a, cells_b)[0].channel == Channel::Fallback,
        spec_plan(a, b, cells_a, cells_b)[0].text == spec_fallback_text(),
{
}

} // verus!
