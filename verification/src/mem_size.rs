//! Byte counts and their human-readable form.
use vstd::prelude::*;
use crate::text::{decimal, decimal_string};

verus! {

/// A number of bytes.
#[derive(Clone, Copy, PartialEq, Eq, Structural, Hash, Debug)]
pub struct MemSize(pub usize);

/// 1 KiB, 1 MiB, 1 GiB and 1 TiB in bytes.
pub open spec fn kib() -> nat { 1024 }
pub open spec fn mib() -> nat { 0x10_0000 }
pub open spec fn gib() -> nat { 0x4000_0000 }
pub open spec fn tib() -> nat { 0x100_0000_0000 }

/// The largest of TiB, GiB, MiB, KiB and B that divides `n` (for `n > 0`), in bytes.
pub open spec fn mem_unit(n: nat) -> nat {
    if n % tib() == 0 {
        tib()
    } else if n % gib() == 0 {
        gib()
    } else if n % mib() == 0 {
        mib()
    } else if n % kib() == 0 {
        kib()
    } else {
        1
    }
}

/// The suffix that names a unit of `mem_unit`.
pub open spec fn unit_suffix(unit: nat) -> Seq<char> {
    if unit == tib() {
        seq!['T', 'i', 'B']
    } else if unit == gib() {
        seq!['G', 'i', 'B']
    } else if unit == mib() {
        seq!['M', 'i', 'B']
    } else if unit == kib() {
        seq!['K', 'i', 'B']
    } else {
        seq!['B']
    }
}

/// The text of a size: `0` for zero bytes, otherwise the size counted in the largest of TiB, GiB,
/// MiB, KiB and B that divides it exactly, followed by that unit.
pub open spec fn mem_size_text(n: nat) -> Seq<char> {
    if n == 0 {
        seq!['0']
    } else {
        decimal(n / mem_unit(n)) + unit_suffix(mem_unit(n))
    }
}

impl MemSize {
    /// The human-readable form of the size, e.g. `4KiB`, `3GiB`, `1000B` or `0`.
    pub fn to_string(&self) -> (s: String)
        ensures
            s@ == mem_size_text(self.0 as nat),
    {
        let n: u64 = self.0 as u64;
        if n == 0 {
            let s = String::from_str("0");
            proof { reveal_strlit("0"); }
            return s;
        }
        let (count, suffix): (u64, &str) = if n % 0x100_0000_0000 == 0 {
            (n / 0x100_0000_0000, "TiB")
        } else if n % 0x4000_0000 == 0 {
            (n / 0x4000_0000, "GiB")
        } else if n % 0x10_0000 == 0 {
            (n / 0x10_0000, "MiB")
        } else if n % 0x400 == 0 {
            (n / 0x400, "KiB")
        } else {
            (n, "B")
        };
        proof {
            reveal_strlit("TiB");
            reveal_strlit("GiB");
            reveal_strlit("MiB");
            reveal_strlit("KiB");
            reveal_strlit("B");
        }
        let mut s = decimal_string(count);
        s.append(suffix);
        s
    }
}

/// The size of a non-zero number of bytes shows it exactly: the number in the text times the unit
/// named in the text is the size itself.
pub proof fn lemma_mem_size_text_exact(n: nat)
    requires
        n > 0,
    ensures
        mem_size_text(n) == decimal(n / mem_unit(n)) + unit_suffix(mem_unit(n)),
        (n / mem_unit(n)) * mem_unit(n) == n,
        mem_unit(n) == tib() || mem_unit(n) == gib() || mem_unit(n) == mib() || mem_unit(n)
            == kib() || mem_unit(n) == 1,
{
    let u = mem_unit(n);
    assert(n % u == 0);
    vstd::arithmetic::div_mod::lemma_fundamental_div_mod(n as int, u as int);
    vstd::arithmetic::mul::lemma_mul_is_commutative((n / u) as int, u as int);
}

/// The unit chosen for a non-zero size is the largest of TiB, GiB, MiB and KiB that divides it
/// (bytes where none does): it divides the size, and no larger unit does. So the text counts the
/// size in TiB when a TiB divides it, else in GiB when a GiB does, else in MiB when a MiB does,
/// else in KiB when a KiB does, else in bytes.
pub proof fn lemma_mem_unit_largest(n: nat)
    requires
        n > 0,
    ensures
        n % mem_unit(n) == 0,
        mem_unit(n) < tib() ==> n % tib() != 0,
        mem_unit(n) < gib() ==> n % gib() != 0,
        mem_unit(n) < mib() ==> n % mib() != 0,
        mem_unit(n) < kib() ==> n % kib() != 0,
        n % tib() == 0 ==> mem_size_text(n) == decimal(n / tib()) + seq!['T', 'i', 'B'],
        n % tib() != 0 && n % gib() == 0 ==> mem_size_text(n) == decimal(n / gib()) + seq![
            'G',
            'i',
            'B',
        ],
        n % gib() != 0 && n % mib() == 0 ==> mem_size_text(n) == decimal(n / mib()) + seq![
            'M',
            'i',
            'B',
        ],
        n % mib() != 0 && n % kib() == 0 ==> mem_size_text(n) == decimal(n / kib()) + seq![
            'K',
            'i',
            'B',
        ],
        n % kib() != 0 ==> mem_size_text(n) == decimal(n) + seq!['B'],
{
    assert(n % 1 == 0);
    assert(n / 1 == n);
    assert(n % gib() == 0 ==> n % mib() == 0) by {
        if n % gib() == 0 {
            vstd::arithmetic::div_mod::lemma_mod_mod(n as int, mib() as int, 1024);
        }
    }
    assert(n % mib() == 0 ==> n % kib() == 0) by {
        if n % mib() == 0 {
            vstd::arithmetic::div_mod::lemma_mod_mod(n as int, kib() as int, 1024);
        }
    }
    assert(n % tib() == 0 ==> n % gib() == 0) by {
        if n % tib() == 0 {
            vstd::arithmetic::div_mod::lemma_mod_mod(n as int, gib() as int, 1024);
        }
    }
}

impl From<i32> for MemSize {
    /// The size given by a driver integer, converted with `as`.
    fn from(value: i32) -> (r: MemSize) {
        MemSize(value as usize)
    }
}

impl vstd::std_specs::convert::FromSpecImpl<i32> for MemSize {
    open spec fn obeys_from_spec() -> bool {
        true
    }

    open spec fn from_spec(v: i32) -> MemSize {
        MemSize(v as usize)
    }
}

impl From<i64> for MemSize {
    /// The size given by a driver integer, converted with `as`.
    fn from(value: i64) -> (r: MemSize) {
        MemSize(value as usize)
    }
}

impl vstd::std_specs::convert::FromSpecImpl<i64> for MemSize {
    open spec fn obeys_from_spec() -> bool {
        true
    }

    open spec fn from_spec(v: i64) -> MemSize {
        MemSize(v as usize)
    }
}

impl From<usize> for MemSize {
    fn from(value: usize) -> (r: MemSize) {
        MemSize(value)
    }
}

impl vstd::std_specs::convert::FromSpecImpl<usize> for MemSize {
    open spec fn obeys_from_spec() -> bool {
        true
    }

    open spec fn from_spec(v: usize) -> MemSize {
        MemSize(v)
    }
}

} // verus!
