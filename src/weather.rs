//! Cloud cover as reported by a weather feed.

use vstd::prelude::*;
use crate::kitty::push_all;

verus! {

/// Cloud cover, in percent.
#[derive(Clone, Copy, Debug, PartialEq, Eq, Structural)]
pub struct Clouds {
    pub all: u32,
}

/// The decimal digits of `n` in ASCII, most significant first.
pub open spec fn decimal(n: nat) -> Seq<u8>
    decreases n,
{
    if n < 10 {
        seq![(48 + n) as u8]
    } else {
        decimal(n / 10).push((48 + n % 10) as u8)
    }
}

/// Appends the decimal digits of `n` to `out`.
fn push_decimal(out: &mut Vec<u8>, n: u32)
    ensures
        final(out)@ == old(out)@ + decimal(n as nat),
    decreases n,
{
    if n >= 10 {
        push_decimal(out, n / 10);
    }
    out.push((48 + n % 10) as u8);
}

impl Clouds {
    /// The ASCII text `{ all: N }`, with `N` the cover in decimal.
    pub open spec fn text(self) -> Seq<u8> {
        seq![123u8, 32u8, 97u8, 108u8, 108u8, 58u8, 32u8] + decimal(self.all as nat) + seq![
            32u8,
            125u8,
        ]
    }

    /// Renders the cover as `{ all: N }`.
    pub fn describe(&self) -> (r: Vec<u8>)
        ensures
            r@ == self.text(),
    {
        let mut out: Vec<u8> = Vec::new();
        let open = [123u8, 32u8, 97u8, 108u8, 108u8, 58u8, 32u8];
        push_all(&mut out, &open);
        push_decimal(&mut out, self.all);
        let close = [32u8, 125u8];
        push_all(&mut out, &close);
        assert(open@ =~= seq![123u8, 32u8, 97u8, 108u8, 108u8, 58u8, 32u8]);
        assert(close@ =~= seq![32u8, 125u8]);
        out
    }
}

} // verus!
