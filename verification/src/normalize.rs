//! Normalizing a manually entered installation directory into the asset
//! directory the prober expects.

use crate::text::{
    chars_of, ends_with, is_whitespace, lemma_trim_shape, trim, trim_bounds, trim_end, trim_start,
};
use vstd::prelude::*;

verus! {

/// The layout that every asset directory ends with.
pub const ASSET_LAYOUT: &'static str = "/RED/Content/Paks/";

/// The asset layout below a game directory that ends with a separator.
pub const ASSET_LAYOUT_TAIL: &'static str = "RED/Content/Paks/";

/// `s`, with a `/` appended unless it already ends with one.
pub open spec fn with_trailing_separator(s: Seq<char>) -> Seq<char> {
    if s.len() > 0 && s.last() == '/' {
        s
    } else {
        s.push('/')
    }
}

/// The asset directory that the manual input `raw` stands for: the trimmed
/// input itself where it already ends with the asset layout, else the
/// trimmed input followed by one separator and the asset layout.
pub open spec fn normalized(raw: Seq<char>) -> Seq<char> {
    let kept = trim(raw);
    if ASSET_LAYOUT@.is_suffix_of(kept) {
        kept
    } else {
        with_trailing_separator(kept) + ASSET_LAYOUT_TAIL@
    }
}

/// Turns manual input into the asset directory to check.
pub fn normalize_manual_input(raw: &str) -> (out: String)
    ensures
        out@ == normalized(raw@),
{
    let chars = chars_of(raw);
    let (start, end) = trim_bounds(&chars);
    let kept = raw.substring_char(start, end);
    let kept_chars = chars_of(kept);
    let layout = chars_of(ASSET_LAYOUT);
    let mut out = String::from_str(kept);
    if !ends_with(&kept_chars, &layout) {
        if !(end > start && chars[end - 1] == '/') {
            proof {
                reveal_strlit("/");
            }
            out.append("/");
        }
        out.append(ASSET_LAYOUT_TAIL);
    }
    out
}

/// The asset layout is a separator followed by the relative layout, and
/// holds no whitespace at either end.
pub proof fn lemma_asset_layout()
    ensures
        ASSET_LAYOUT@ == seq!['/'] + ASSET_LAYOUT_TAIL@,
        ASSET_LAYOUT@.len() == 18,
        ASSET_LAYOUT_TAIL@.len() == 17,
        ASSET_LAYOUT@.first() == '/',
        ASSET_LAYOUT_TAIL@.last() == '/',
        !is_whitespace('/'),
        !is_whitespace(ASSET_LAYOUT_TAIL@.first()),
{
    reveal_strlit("/RED/Content/Paks/");
    reveal_strlit("RED/Content/Paks/");
}

/// Every normalized path ends with the asset layout.
pub proof fn lemma_normalized_ends_with_layout(raw: Seq<char>)
    ensures
        ASSET_LAYOUT@.is_suffix_of(normalized(raw)),
{
    lemma_asset_layout();
}

/// Normalizing is idempotent: a normalized path normalizes to itself.
pub proof fn lemma_normalized_idempotent(raw: Seq<char>)
    ensures
        normalized(normalized(raw)) == normalized(raw),
{
    lemma_asset_layout();
    lemma_trim_shape(raw);
    lemma_normalized_ends_with_layout(raw);
    let out = normalized(raw);
    assert(out.last() == '/') by {
        assert(out.subrange(out.len() - 18, out.len() as int)[17] == ASSET_LAYOUT@[17]);
    }
}

/// Normalizing leaves unchanged any input that already ends with the asset
/// layout and does not begin with whitespace.
pub proof fn lemma_normalized_keeps_asset_directory(raw: Seq<char>)
    requires
        ASSET_LAYOUT@.is_suffix_of(raw),
        !is_whitespace(raw.first()),
    ensures
        normalized(raw) == raw,
{
    lemma_asset_layout();
    assert(raw.last() == '/') by {
        assert(raw.subrange(raw.len() - 18, raw.len() as int)[17] == ASSET_LAYOUT@[17]);
    }
}

} // verus!
