//! Kaomoji portraits for the Overview snapshot's favourite model family:
//! one artwork per family, three rows padded to a common width.

use vstd::prelude::*;
use crate::text::{str_display_width, width};

verus! {

/// Model families with their own artwork.
#[derive(Debug, Clone, Copy, PartialEq, Eq, Structural)]
pub enum ModelFamily {
    Gpt,
    Claude,
    Gemini,
    Xai,
    Glm,
    Deepseek,
    Qwen,
    Kimi,
    Minimax,
    Mimo,
    Mistral,
    Unknown,
}

/// Every portrait has this many rows.
pub const PORTRAIT_HEIGHT: usize = 3;

/// The artwork of each family, top row first.
pub open spec fn artwork(family: ModelFamily) -> Seq<&'static str> {
    match family {
        ModelFamily::Gpt => seq!["     ╲", "  (¬‿¬)╮", "   ⁄|~|⁄"],
        ModelFamily::Claude => seq!["   ╭─ ✦ ─╮", "  (˶ᵔ ᵕ ᵔ˶)", "    /| |\\"],
        ModelFamily::Gemini => seq!["  ✦    ✦", "  (◕‿◕)✦", "   /||\\"],
        ModelFamily::Xai => seq!["    𝕏", "  (¬‿¬)✕", "   /|\\"],
        ModelFamily::Glm => seq!["   ___", "  (⌐■_■)▤", "   /|  |\\"],
        ModelFamily::Deepseek => seq!["  ～～～", " (｡•́︿•̀｡)", "   ～|～"],
        ModelFamily::Qwen => seq!["   ☁", "  (｡•̀ᴗ•́｡)☁", "   /|\\"],
        ModelFamily::Kimi => seq!["   ☾", "  (｡･ω･｡)☾", "   /|\\"],
        ModelFamily::Minimax => seq!["   /\\  /\\", "  (｡•̀ᴗ•́)◆", "   /|  |\\"],
        ModelFamily::Mimo => seq!["   ___", "  (｡•ω•｡)¤", "   /|  |\\"],
        ModelFamily::Mistral => seq!["  ≋≋≋", " (•̀ᴗ•́)≋", "   /|\\"],
        ModelFamily::Unknown => seq!["  [■_■]", "  (•_•)", "   /|\\"],
    }
}

/// The family's three rows of artwork.
pub fn portrait(family: ModelFamily) -> (r: [&'static str; 3])
    ensures
        r@ == artwork(family),
{
    let art = match family {
        ModelFamily::Gpt => ["     ╲", "  (¬‿¬)╮", "   ⁄|~|⁄"],
        ModelFamily::Claude => ["   ╭─ ✦ ─╮", "  (˶ᵔ ᵕ ᵔ˶)", "    /| |\\"],
        ModelFamily::Gemini => ["  ✦    ✦", "  (◕‿◕)✦", "   /||\\"],
        ModelFamily::Xai => ["    𝕏", "  (¬‿¬)✕", "   /|\\"],
        ModelFamily::Glm => ["   ___", "  (⌐■_■)▤", "   /|  |\\"],
        ModelFamily::Deepseek => ["  ～～～", " (｡•́︿•̀｡)", "   ～|～"],
        ModelFamily::Qwen => ["   ☁", "  (｡•̀ᴗ•́｡)☁", "   /|\\"],
        ModelFamily::Kimi => ["   ☾", "  (｡･ω･｡)☾", "   /|\\"],
        ModelFamily::Minimax => ["   /\\  /\\", "  (｡•̀ᴗ•́)◆", "   /|  |\\"],
        ModelFamily::Mimo => ["   ___", "  (｡•ω•｡)¤", "   /|  |\\"],
        ModelFamily::Mistral => ["  ≋≋≋", " (•̀ᴗ•́)≋", "   /|\\"],
        ModelFamily::Unknown => ["  [■_■]", "  (•_•)", "   /|\\"],
    };
    assert(art@ =~= artwork(family));
    art
}

/// The widest of three display widths.
pub open spec fn block_width(rows: [&'static str; 3]) -> int {
    let a = str_display_width(rows[0]@) as int;
    let b = str_display_width(rows[1]@) as int;
    let c = str_display_width(rows[2]@) as int;
    if a >= b && a >= c { a } else if b >= c { b } else { c }
}

/// Artwork rows, each with the number of spaces that pads it on the right
/// to the width of the widest row, so per-row centring keeps the artwork's
/// left edge aligned: every padded row is exactly as wide as the block.
pub fn padded_rows(art: [&'static str; 3]) -> (r: [(&'static str, usize); 3])
    ensures
        forall|i: int| 0 <= i < 3 ==> (#[trigger] r[i]).0 == art[i] && r[i].1 + str_display_width(art[i]@) == block_width(art),
{
    let a = width(art[0]);
    let b = width(art[1]);
    let c = width(art[2]);
    let block = if a >= b && a >= c { a } else if b >= c { b } else { c };
    [(art[0], block - a), (art[1], block - b), (art[2], block - c)]
}

} // verus!
