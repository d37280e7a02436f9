//! Slugs and short ids of organizations, derived from their names.
//!
//! A slug is the name in lower case with every run of other characters than
//! `a` to `z` and `0` to `9` turned into one dash, followed by a dash and a
//! number drawn at random. A slug that is taken gives way to another draw,
//! ten draws at most; after them a random identifier takes the place of the
//! number.

use vstd::prelude::*;
use vstd::string::*;
use crate::ident::{uuid_new_v4, uuid_text, uuid_to_string};
use crate::text::{
    decimal_text, head_piece, lowercase_text, piece_bounds, tail_pieces, to_decimal,
    to_lowercase, to_uppercase, uppercase_text,
};

verus! {

/// How many numbered slugs are tried before the fallback.
pub const SLUG_ATTEMPTS: u8 = 10;

/// A character as it stands in a slug.
pub open spec fn slug_char(c: char) -> char {
    if ('a' <= c && c <= 'z') || ('0' <= c && c <= '9') {
        c
    } else {
        '-'
    }
}

/// A text with each character as it stands in a slug.
pub open spec fn sanitized(text: Seq<char>) -> Seq<char> {
    Seq::new(text.len(), |i: int| slug_char(text[i]))
}

/// Two texts joined by a dash, an empty one leaving the other as it is.
pub open spec fn dashed(left: Seq<char>, right: Seq<char>) -> Seq<char> {
    if left.len() == 0 {
        right
    } else if right.len() == 0 {
        left
    } else {
        left + seq!['-'] + right
    }
}

/// The non-empty pieces of a text between dashes, joined by single dashes.
pub open spec fn collapsed(text: Seq<char>) -> Seq<char>
    decreases text.len(),
{
    match tail_pieces(text, '-') {
        Some(rest) => if rest.len() < text.len() {
            dashed(head_piece(text, '-'), collapsed(rest))
        } else {
            head_piece(text, '-')
        },
        None => head_piece(text, '-'),
    }
}

/// The part of a slug that comes of the name.
pub open spec fn spec_slug_base(name: Seq<char>) -> Seq<char> {
    collapsed(sanitized(lowercase_text(name)))
}

/// The short id of an organization: the first three characters of its name in
/// upper case.
pub open spec fn spec_custom_id(name: Seq<char>) -> Seq<char> {
    let upper = uppercase_text(name);
    if upper.len() <= 3 {
        upper
    } else {
        upper.subrange(0, 3)
    }
}

/// Joining by dashes does not depend on the grouping.
pub proof fn lemma_dashed_is_associative(a: Seq<char>, b: Seq<char>, c: Seq<char>)
    ensures
        dashed(a, dashed(b, c)) =~= dashed(dashed(a, b), c),
{
}

/// `Rng::gen_range` on the thread's generator, with a range from `low` up to
/// and without `high`: a number in that range.
#[verifier::external_body]
fn random_in(low: u32, high: u32) -> (number: u32)
    requires
        low < high,
    ensures
        low <= number < high,
{
    rand::Rng::gen_range(&mut rand::thread_rng(), low..high)
}

fn sanitize(text: &str) -> (clean: String)
    ensures
        clean@ == sanitized(text@),
{
    let length = text.unicode_len();
    let mut clean = String::new();
    let mut i: usize = 0;
    while i < length
        invariant
            i <= length,
            length == text@.len(),
            clean@ == sanitized(text@.subrange(0, i as int)),
        decreases length - i,
    {
        let c = text.get_char(i);
        let ghost before = clean@;
        if (c >= 'a' && c <= 'z') || (c >= '0' && c <= '9') {
            let one = text.substring_char(i, i + 1);
            assert(one@ =~= seq![c]);
            clean.append(one);
        } else {
            proof {
                reveal_strlit("-");
            }
            assert("-"@ =~= seq!['-']);
            clean.append("-");
        }
        assert(clean@ =~= sanitized(text@.subrange(0, i + 1))) by {
            assert(clean@ == before + seq![slug_char(c)]);
            assert forall|j: int| 0 <= j < i + 1 implies clean@[j] == slug_char(
                text@.subrange(0, i + 1)[j],
            ) by {
                if j < i {
                    assert(before[j] == slug_char(text@.subrange(0, i as int)[j]));
                }
            }
        }
        i += 1;
    }
    assert(text@.subrange(0, length as int) =~= text@);
    clean
}

fn collapse(text: &str) -> (joined: String)
    ensures
        joined@ == collapsed(text@),
{
    let length = text.unicode_len();
    let mut joined = String::new();
    let mut start: usize = 0;
    assert(text@.skip(0) =~= text@);
    loop
        invariant_except_break
            start <= length,
            length == text@.len(),
            collapsed(text@) == dashed(joined@, collapsed(text@.skip(start as int))),
        ensures
            joined@ == collapsed(text@),
        decreases length - start,
    {
        let tail = text.substring_char(start, length);
        assert(tail@ =~= text@.skip(start as int));
        let (end, next) = piece_bounds(tail, length - start, '-');
        let piece = tail.substring_char(0, end);
        let ghost before = joined@;
        if end > 0 {
            if joined.unicode_len() > 0 {
                proof {
                    reveal_strlit("-");
                }
                assert("-"@ =~= seq!['-']);
                joined.append("-");
            }
            joined.append(piece);
        }
        assert(joined@ =~= dashed(before, piece@));
        match next {
            Some((second, _)) => {
                let ghost rest = tail@.skip(second as int);
                assert(rest =~= text@.skip(start + second));
                proof {
                    lemma_dashed_is_associative(before, piece@, collapsed(rest));
                }
                start = start + second;
            },
            None => {
                assert(dashed(before, piece@) =~= joined@);
                break;
            },
        }
    }
    joined
}

/// The part of a slug that comes of the name of an organization.
pub fn slug_base(name: &str) -> (base: String)
    ensures
        base@ == spec_slug_base(name@),
{
    let lower = to_lowercase(name);
    let clean = sanitize(lower.as_str());
    collapse(clean.as_str())
}

/// The short id of an organization.
pub fn generate_custom_id(name: &str) -> (custom_id: String)
    ensures
        custom_id@ == spec_custom_id(name@),
{
    let upper = to_uppercase(name);
    let length = upper.as_str().unicode_len();
    if length <= 3 {
        upper
    } else {
        upper.as_str().substring_char(0, 3).to_string()
    }
}

/// A search for a slug that is free: the candidate at hand, and how many
/// have been drawn so far.
pub struct SlugSearch {
    base: String,
    candidate: String,
    drawn: u8,
}

/// What a search does once a candidate has turned out to be taken.
pub enum SlugStep {
    /// Another candidate is to be looked up.
    Retry(SlugSearch),
    /// The draws are used up: this slug is taken as it is.
    Settled(String),
}

impl SlugSearch {
    /// The part of the slug that comes of the name.
    pub closed spec fn base(&self) -> Seq<char> {
        self.base@
    }

    /// The candidate at hand.
    pub closed spec fn spec_candidate(&self) -> Seq<char> {
        self.candidate@
    }

    /// How many candidates have been drawn, the one at hand included.
    pub closed spec fn drawn(&self) -> int {
        self.drawn as int
    }

    /// Whether a text is a base followed by a dash and a number of three
    /// digits.
    pub open spec fn is_numbered(base: Seq<char>, slug: Seq<char>) -> bool {
        exists|number: nat| 100 <= number < 1000 && slug == base + seq!['-'] + decimal_text(number)
    }

    /// What holds of every search: its draws are counted from one to
    /// `SLUG_ATTEMPTS`, and its candidate is its base with a number.
    #[verifier::type_invariant]
    closed spec fn well_formed(&self) -> bool {
        &&& 1 <= self.drawn <= SLUG_ATTEMPTS
        &&& Self::is_numbered(self.base@, self.candidate@)
    }

    fn draw(base: &String) -> (candidate: String)
        ensures
            Self::is_numbered(base@, candidate@),
    {
        let number = random_in(100, 1000);
        proof {
            reveal_strlit("-");
        }
        assert("-"@ =~= seq!['-']);
        base.clone().concat("-").concat(to_decimal(number as u64).as_str())
    }

    /// Begins the search for the slug of an organization with its first
    /// candidate.
    pub fn generate_slug(name: &str) -> (search: SlugSearch)
        ensures
            search.drawn() == 1,
            search.base() == spec_slug_base(name@),
            Self::is_numbered(search.base(), search.spec_candidate()),
    {
        let base = slug_base(name);
        let candidate = Self::draw(&base);
        SlugSearch { base, candidate, drawn: 1 }
    }

    /// The candidate to look up.
    pub fn candidate(&self) -> (slug: &str)
        ensures
            slug@ == self.spec_candidate(),
            Self::is_numbered(self.base(), slug@),
    {
        proof {
            use_type_invariant(self);
        }
        self.candidate.as_str()
    }

    /// The slug, once the store holds no organization under the candidate.
    pub fn free(self) -> (slug: String)
        ensures
            slug@ == self.spec_candidate(),
            Self::is_numbered(self.base(), slug@),
    {
        proof {
            use_type_invariant(&self);
        }
        self.candidate
    }

    /// The next step, once the store holds an organization under the
    /// candidate: another draw, or after the last one the fallback, which is
    /// the base with a random identifier.
    pub fn taken(self) -> (step: SlugStep)
        ensures
            1 <= self.drawn() <= SLUG_ATTEMPTS,
            match step {
                SlugStep::Retry(next) => self.drawn() < SLUG_ATTEMPTS && next.drawn()
                    == self.drawn() + 1 && next.base() == self.base() && Self::is_numbered(
                    next.base(),
                    next.spec_candidate(),
                ),
                SlugStep::Settled(slug) => self.drawn() == SLUG_ATTEMPTS && exists|value: int|
                    slug@ == self.base() + seq!['-'] + #[trigger] uuid_text(value),
            },
    {
        proof {
            use_type_invariant(&self);
        }
        if self.drawn < SLUG_ATTEMPTS {
            let candidate = Self::draw(&self.base);
            SlugStep::Retry(SlugSearch { base: self.base, candidate, drawn: self.drawn + 1 })
        } else {
            proof {
                reveal_strlit("-");
            }
            assert("-"@ =~= seq!['-']);
            let id = uuid_new_v4();
            let slug = self.base.concat("-").concat(uuid_to_string(id).as_str());
            assert(slug@ == self.base() + seq!['-'] + uuid_text(id.value as int));
            SlugStep::Settled(slug)
        }
    }
}

} // verus!
