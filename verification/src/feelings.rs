//! The feelings that a mnemon can be marked with.

use vstd::prelude::*;

use crate::constants::FEELINGS_COUNT;
use crate::text::same_text;

verus! {

/// The names of the feelings, in the order in which they are offered.
pub open spec fn feeling_names() -> Seq<Seq<char>> {
    seq![
        "Nostalgic"@,
        "Cozy"@,
        "Melancholic"@,
        "Epic"@,
        "Wholesome"@,
        "Bittersweet"@,
        "Heartwarming"@,
        "Chill"@,
        "Adventurous"@,
        "Uplifting"@,
        "Mysterious"@,
        "Somber"@,
    ]
}

/// The emoji shown beside the feelings, in the same order.
pub open spec fn feeling_emoji() -> Seq<Seq<char>> {
    seq![
        "🌅"@,
        "☕"@,
        "🌧️"@,
        "⚔️"@,
        "💚"@,
        "🍃"@,
        "💝"@,
        "😎"@,
        "🗺️"@,
        "🎈"@,
        "🔮"@,
        "🌑"@,
    ]
}

/// Whether every feeling of `feelings` is one of the twelve.
pub open spec fn all_known(feelings: Seq<Seq<char>>) -> bool {
    forall|i: int| 0 <= i < feelings.len() ==> feeling_names().contains(#[trigger] feelings[i])
}

/// The feelings with the emoji shown beside each: name first, emoji second.
pub fn feelings() -> (r: Vec<(&'static str, &'static str)>)
    ensures
        r@.len() == FEELINGS_COUNT,
        r@.len() == feeling_names().len(),
        forall|i: int|
            0 <= i < r@.len() ==> (#[trigger] r@[i]).0@ == feeling_names()[i] && r@[i].1@
                == feeling_emoji()[i],
{
    let mut r: Vec<(&'static str, &'static str)> = Vec::new();
    r.push(("Nostalgic", "🌅"));
    r.push(("Cozy", "☕"));
    r.push(("Melancholic", "🌧️"));
    r.push(("Epic", "⚔️"));
    r.push(("Wholesome", "💚"));
    r.push(("Bittersweet", "🍃"));
    r.push(("Heartwarming", "💝"));
    r.push(("Chill", "😎"));
    r.push(("Adventurous", "🗺️"));
    r.push(("Uplifting", "🎈"));
    r.push(("Mysterious", "🔮"));
    r.push(("Somber", "🌑"));
    r
}

/// Whether `name` is one of the twelve feelings.
pub fn is_feeling(name: &str) -> (b: bool)
    ensures
        b == feeling_names().contains(name@),
{
    let all = feelings();
    let mut i: usize = 0;
    while i < all.len()
        invariant
            i <= all.len(),
            all@.len() == feeling_names().len(),
            forall|k: int| 0 <= k < all@.len() ==> (#[trigger] all@[k]).0@ == feeling_names()[k],
            forall|k: int| 0 <= k < i ==> feeling_names()[k] != name@,
        decreases all.len() - i,
    {
        if same_text(all[i].0, name) {
            return true;
        }
        i = i + 1;
    }
    false
}

} // verus!
