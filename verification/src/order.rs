//! The order of codes, which is that of their display renderings: a sorted
//! listing reads as a sorted list of texts.

use crate::code::FourCC;
use crate::lex::{
    lemma_lex_asymmetric, lemma_lex_irreflexive, lemma_lex_total, lemma_lex_transitive,
    lex_less, lex_standing, Standing,
};
use core::cmp::Ordering;
use vstd::prelude::*;
use vstd::std_specs::cmp::PartialOrdSpec;

verus! {

impl FourCC {
    /// `self` comes before `other`: its display rendering comes before that
    /// of `other` in lexicographic order, character by character, by code
    /// point.
    pub open spec fn less(self, other: FourCC) -> bool {
        lex_less(self.display(), other.display())
    }

    /// How `self` stands to `other` in the order.
    pub open spec fn cmp_by_display(self, other: FourCC) -> Ordering {
        if self.less(other) {
            Ordering::Less
        } else if other.less(self) {
            Ordering::Greater
        } else {
            Ordering::Equal
        }
    }

    /// Of two codes exactly one holds: the first comes before the second,
    /// they are the same code, or the second comes before the first.
    pub proof fn lemma_order_trichotomy(self, other: FourCC)
        ensures
            self.less(other) || self == other || other.less(self),
            !(self.less(other) && self == other),
            !(self.less(other) && other.less(self)),
            !(self == other && other.less(self)),
            self.cmp_by_display(other) == Ordering::Equal <==> self == other,
    {
        lemma_lex_total(self.display(), other.display());
        lemma_lex_irreflexive(self.display());
        if self.display() == other.display() {
            self.lemma_display_injective(other);
        }
        if self.less(other) {
            lemma_lex_asymmetric(self.display(), other.display());
        }
    }

    /// The order of two codes is the lexicographic order of their display
    /// renderings, and `<`, `==` and `>` go by it.
    pub proof fn lemma_order_is_display_order(self, other: FourCC)
        ensures
            self.partial_cmp_spec(&other) == Some(Ordering::Less) <==> lex_less(
                self.display(),
                other.display(),
            ),
            self.partial_cmp_spec(&other) == Some(Ordering::Greater) <==> lex_less(
                other.display(),
                self.display(),
            ),
            self.partial_cmp_spec(&other) == Some(Ordering::Equal) <==> self.display()
                == other.display(),
            self.partial_cmp_spec(&other) == Some(Ordering::Equal) <==> self == other,
    {
        self.lemma_order_trichotomy(other);
    }

    /// The order is transitive.
    pub proof fn lemma_order_transitive(self, second: FourCC, third: FourCC)
        requires
            self.less(second),
            second.less(third),
        ensures
            self.less(third),
    {
        lemma_lex_transitive(self.display(), second.display(), third.display());
    }

    /// How `self` stands to `other` in the order of the display renderings.
    /// The result is `Equal` exactly for two equal codes.
    pub fn cmp(&self, other: &Self) -> (o: Ordering)
        ensures
            o == self.cmp_by_display(*other),
            o == Ordering::Less <==> lex_less(self.display(), other.display()),
            o == Ordering::Greater <==> lex_less(other.display(), self.display()),
            o == Ordering::Equal <==> *self == *other,
    {
        let a = self.display_chars();
        let b = other.display_chars();
        proof {
            self.lemma_order_trichotomy(*other);
        }
        match lex_standing(&a, &b) {
            Standing::Before => Ordering::Less,
            Standing::Same => Ordering::Equal,
            Standing::After => Ordering::Greater,
        }
    }
}

impl PartialOrd for FourCC {
    /// The order of the display renderings; it is total, so the result is
    /// never `None`.
    fn partial_cmp(&self, other: &Self) -> (r: Option<Ordering>) {
        Some(self.cmp(other))
    }
}

impl vstd::std_specs::cmp::PartialOrdSpecImpl for FourCC {
    open spec fn obeys_partial_cmp_spec() -> bool {
        true
    }

    open spec fn partial_cmp_spec(&self, other: &Self) -> Option<Ordering> {
        Some(self.cmp_by_display(*other))
    }
}

} // verus!
