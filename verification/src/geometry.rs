//! Wraparound arithmetic for a toroidal grid axis with valid coordinates
//! `0 ..= bound`.

use vstd::prelude::*;
use vstd::arithmetic::div_mod::{lemma_fundamental_div_mod, lemma_mod_multiples_vanish};

verus! {

/// A coordinate reduced into `[0, bound]` by wraparound: moving past `bound`
/// reenters at 0, moving below 0 reenters at `bound`.
pub open spec fn wrap(v: int, bound: u16) -> int {
    v % (bound + 1)
}

/// Move `coord` by `delta` cells along one axis of a grid whose valid
/// coordinates are `0 ..= bound`, wrapping around at both edges.
pub fn advance(coord: u16, bound: u16, delta: i16) -> (r: u16)
    requires
        coord <= bound,
    ensures
        r == wrap(coord + delta, bound),
{
    let m: u32 = bound as u32 + 1;
    if delta >= 0 {
        let s: u32 = coord as u32 + delta as u32;
        (s % m) as u16
    } else {
        let d: u32 = (-(delta as i32)) as u32;
        let k: u32 = d % m;
        let s: u32 = if k == 0 {
            coord as u32
        } else {
            coord as u32 + (m - k)
        };
        proof {
            let q: int = d as int / m as int;
            lemma_fundamental_div_mod(d as int, m as int);
            if k == 0 {
                lemma_mod_multiples_vanish(-q, coord as int, m as int);
                assert(m as int * -q + coord == coord - d) by (nonlinear_arith)
                    requires d == m as int * q;
            } else {
                lemma_mod_multiples_vanish(q + 1, coord as int - d, m as int);
                assert(m as int * (q + 1) + (coord - d) == s) by (nonlinear_arith)
                    requires d == m as int * q + k && s == coord + (m - k);
            }
        }
        (s % m) as u16
    }
}

} // verus!
