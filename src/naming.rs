use vstd::prelude::*;

verus! {

/// What `str::to_lowercase` makes of a text.
pub uninterp spec fn lowercase_of(s: Seq<char>) -> Seq<char>;

/// Relies on str::to_lowercase: the Unicode lowercase mapping of each
/// character, which depends on the text alone.
#[verifier::external_body]
fn lowercase(s: &str) -> (r: String)
    ensures
        r@ == lowercase_of(s@),
{
    s.to_lowercase()
}

/// `s` with every space turned into an underscore.
pub open spec fn underscored(s: Seq<char>) -> Seq<char> {
    s.map_values(|c: char| if c == ' ' { '_' } else { c })
}

/// The image file name for an already lower-cased title.
pub open spec fn image_name(lowered: Seq<char>) -> Seq<char> {
    underscored(lowered) + seq!['.', 'p', 'n', 'g']
}

/// The image file name for a title that is already lower case: spaces become
/// underscores and `.png` is appended.
pub fn image_file_name(lowered: &str) -> (r: String)
    ensures
        r@ == image_name(lowered@),
{
    let n = lowered.unicode_len();
    let mut out = String::new();
    let mut i: usize = 0;
    while i < n
        invariant
            n == lowered@.len(),
            i <= n,
            out@ == underscored(lowered@.subrange(0, i as int)),
        decreases n - i,
    {
        let c = lowered.get_char(i);
        if c == ' ' {
            proof {
                reveal_strlit("_");
            }
            out.append("_");
        } else {
            out.append(lowered.substring_char(i, i + 1));
        }
        proof {
            assert(underscored(lowered@.subrange(0, i + 1)) =~= underscored(
                lowered@.subrange(0, i as int),
            ).push(if c == ' ' { '_' } else { c }));
        }
        i = i + 1;
    }
    proof {
        assert(lowered@.subrange(0, n as int) == lowered@);
        reveal_strlit(".png");
    }
    out.append(".png");
    assert(out@ =~= image_name(lowered@));
    out
}

/// The image file that a relationship's plot is written to: the title in
/// lower case, spaces turned into underscores, and `.png` appended.
pub fn output_file_name(title: &str) -> (r: String)
    ensures
        r@ == image_name(lowercase_of(title@)),
{
    let lowered = lowercase(title);
    image_file_name(lowered.as_str())
}

} // verus!
