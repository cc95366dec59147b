use vstd::prelude::*;
use vstd::arithmetic::div_mod::{
    lemma_fundamental_div_mod, lemma_mod_add_multiples_vanish, lemma_mod_bound,
    lemma_mod_multiples_vanish,
};

use crate::catalog::{Category, CATALOG_SIZE};

verus! {

/// The anchor category and additive constant that the derived-field
/// translation is computed against. Both mirror an external encoding's
/// convention: they are injected configuration, not derived from the
/// catalog, and a wrong value yields a plausible-looking but wrong
/// identifier with no detectable error.
pub struct TranslationSettings {
    pub anchor: Category,
    pub constant_offset: usize,
}

impl TranslationSettings {
    /// The settings of the external encoding this application mirrors.
    pub fn standard() -> (s: TranslationSettings)
        ensures
            s.anchor == Category::CoalMaking,
            s.constant_offset == 57,
    {
        TranslationSettings { anchor: Category::CoalMaking, constant_offset: 57 }
    }
}

/// What the derived-field translation yields: the configured constant plus
/// the gap between the derived category's offset and the anchor's,
/// normalized into `[0, CATALOG_SIZE)`. `CATALOG_SIZE` is added before the
/// modulo so the intermediate stays non-negative however far the offset gap
/// goes below zero.
pub open spec fn translate_spec(derived: Category, anchor: Category, constant_offset: int) -> int {
    (CATALOG_SIZE as int + constant_offset + derived.offset_spec() - anchor.offset_spec()) % (
    CATALOG_SIZE as int)
}

/// Maps a derived category selection to its numeric identifier, anchored to
/// the configured reference category. Total: every category pair and every
/// constant yield an identifier in `[0, CATALOG_SIZE)`, with no special case
/// for `derived == anchor`.
pub fn translate(derived: Category, anchor: Category, constant_offset: usize) -> (r: usize)
    ensures
        r == translate_spec(derived, anchor, constant_offset as int),
        r < CATALOG_SIZE,
{
    let k = constant_offset % CATALOG_SIZE;
    let d = derived.offset();
    let a = anchor.offset();
    let r = (CATALOG_SIZE + k + d - a) % CATALOG_SIZE;
    proof {
        let m = CATALOG_SIZE as int;
        let ko = constant_offset as int;
        let gap = m + derived.offset_spec() - anchor.offset_spec();
        lemma_fundamental_div_mod(ko, m);
        lemma_mod_multiples_vanish(ko / m, gap + (ko % m), m);
        lemma_mod_bound(ko, m);
    }
    r
}

/// Law: the translation is total and always lands in `[0, CATALOG_SIZE)`,
/// including when the derived category equals the anchor.
pub proof fn lemma_translate_in_range(derived: Category, anchor: Category, constant_offset: int)
    ensures
        0 <= translate_spec(derived, anchor, constant_offset) < CATALOG_SIZE as int,
{
    lemma_mod_bound(
        CATALOG_SIZE as int + constant_offset + derived.offset_spec() - anchor.offset_spec(),
        CATALOG_SIZE as int,
    );
}

/// Law: translating the anchor against itself yields the constant offset
/// modulo the catalog size.
pub proof fn lemma_translate_anchor_identity(anchor: Category, constant_offset: int)
    ensures
        translate_spec(anchor, anchor, constant_offset) == constant_offset % (CATALOG_SIZE as int),
{
    lemma_mod_add_multiples_vanish(constant_offset, CATALOG_SIZE as int);
}

} // verus!
