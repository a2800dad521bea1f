//! The option flags of the C `openlog` call, as a set of bits.
use vstd::prelude::*;
use vstd::string::*;

verus! {

/// Write to the system console if sending to the system logger fails.
pub const LOG_CONS: i32 = 0x02;

/// Open the connection at once rather than on the first message.
pub const LOG_NDELAY: i32 = 0x08;

/// Do not wait for child processes created while logging.
pub const LOG_NOWAIT: i32 = 0x10;

/// Open the connection on the first message; the default.
pub const LOG_ODELAY: i32 = 0x04;

/// Print to stderr as well.
pub const LOG_PERROR: i32 = 0x20;

/// Include the process id with each message.
pub const LOG_PID: i32 = 0x01;

/// A set of `openlog` option flags.
#[derive(Clone, Copy, Debug, Default, Hash, PartialEq, Eq, PartialOrd, Ord, Structural)]
pub struct LogOption {
    pub bits: i32,
}

/// The bits of the six flags, in the order in which they are listed.
pub open spec fn flag_bits(k: int) -> i32 {
    if k == 0 {
        0x02
    } else if k == 1 {
        0x08
    } else if k == 2 {
        0x10
    } else if k == 3 {
        0x04
    } else if k == 4 {
        0x20
    } else {
        0x01
    }
}

/// The names of the six flags, in the order in which they are listed.
pub open spec fn flag_name(k: int) -> Seq<char> {
    if k == 0 {
        "LOG_CONS"@
    } else if k == 1 {
        "LOG_NDELAY"@
    } else if k == 2 {
        "LOG_NOWAIT"@
    } else if k == 3 {
        "LOG_ODELAY"@
    } else if k == 4 {
        "LOG_PERROR"@
    } else {
        "LOG_PID"@
    }
}

/// The names of the flags among the first `n` whose bits are all in `bits`.
pub open spec fn set_names(bits: i32, n: int) -> Seq<Seq<char>>
    decreases n,
{
    if n <= 0 {
        seq![]
    } else if bits & flag_bits(n - 1) == flag_bits(n - 1) {
        set_names(bits, n - 1).push(flag_name(n - 1))
    } else {
        set_names(bits, n - 1)
    }
}

/// `names` joined by ` | `.
pub open spec fn join_names(names: Seq<Seq<char>>) -> Seq<char>
    decreases names.len(),
{
    if names.len() == 0 {
        seq![]
    } else if names.len() == 1 {
        names[0]
    } else {
        join_names(names.drop_last()) + " | "@ + names.last()
    }
}

fn flag(k: usize) -> (r: (&'static str, i32))
    requires
        k < 6,
    ensures
        r.0@ == flag_name(k as int),
        r.1 == flag_bits(k as int),
{
    if k == 0 {
        ("LOG_CONS", LOG_CONS)
    } else if k == 1 {
        ("LOG_NDELAY", LOG_NDELAY)
    } else if k == 2 {
        ("LOG_NOWAIT", LOG_NOWAIT)
    } else if k == 3 {
        ("LOG_ODELAY", LOG_ODELAY)
    } else if k == 4 {
        ("LOG_PERROR", LOG_PERROR)
    } else {
        ("LOG_PID", LOG_PID)
    }
}

impl LogOption {
    /// The set of the flags in `bits`.
    pub fn new(bits: i32) -> (r: Self)
        ensures
            r.bits == bits,
    {
        LogOption { bits }
    }

    /// No flags.
    pub fn empty() -> (r: Self)
        ensures
            r.bits == 0,
    {
        LogOption { bits: 0 }
    }

    /// Whether no flag is set.
    pub fn is_empty(&self) -> (r: bool)
        ensures
            r == (self.bits == 0),
    {
        self.bits == 0
    }

    /// Whether any flag is set.
    pub fn is_set(&self) -> (r: bool)
        ensures
            r == (self.bits != 0),
    {
        self.bits != 0
    }

    /// All six flags.
    pub fn all() -> (r: Self)
        ensures
            r.bits == 0x3f,
    {
        let bits: i32 = LOG_CONS | LOG_NDELAY | LOG_NOWAIT | LOG_ODELAY | LOG_PERROR | LOG_PID;
        assert(bits == 0x3f) by (bit_vector)
            requires
                bits == 0x02i32 | 0x08i32 | 0x10i32 | 0x04i32 | 0x20i32 | 0x01i32,
        ;
        LogOption { bits }
    }

    /// The union of two sets of flags.
    pub fn union(self, other: Self) -> (r: Self)
        ensures
            r.bits == self.bits | other.bits,
    {
        LogOption { bits: self.bits | other.bits }
    }

    /// The intersection of two sets of flags.
    pub fn intersection(self, other: Self) -> (r: Self)
        ensures
            r.bits == self.bits & other.bits,
    {
        LogOption { bits: self.bits & other.bits }
    }

    /// The flags of `self` with those of `other` toggled.
    pub fn symmetric_difference(self, other: Self) -> (r: Self)
        ensures
            r.bits == self.bits ^ other.bits,
    {
        LogOption { bits: self.bits ^ other.bits }
    }

    /// The flags of `self` that are not in `other`.
    pub fn difference(self, other: Self) -> (r: Self)
        ensures
            r.bits == self.bits & !other.bits,
    {
        LogOption { bits: self.bits & !other.bits }
    }

    /// The flags that are not in `self`, among all six.
    pub fn complement(self) -> (r: Self)
        ensures
            r.bits == !self.bits & 0x3f,
    {
        LogOption { bits: !self.bits & 0x3f }
    }

    /// The names of the flags set, in the order they are listed above,
    /// joined by ` | `.
    pub fn to_string(&self) -> (r: String)
        ensures
            r@ == join_names(set_names(self.bits, 6)),
    {
        let mut s = String::new();
        let mut none_yet = true;
        let mut k: usize = 0;
        while k < 6
            invariant
                k <= 6,
                s@ == join_names(set_names(self.bits, k as int)),
                none_yet == (set_names(self.bits, k as int).len() == 0),
            decreases 6 - k,
        {
            let (name, bits) = flag(k);
            if self.bits & bits == bits {
                let ghost before = set_names(self.bits, k as int);
                if !none_yet {
                    s.append(" | ");
                }
                s.append(name);
                none_yet = false;
                proof {
                    let after = before.push(flag_name(k as int));
                    assert(after.drop_last() =~= before);
                    if before.len() == 0 {
                        assert(s@ =~= join_names(after));
                    }
                }
            }
            k = k + 1;
        }
        s
    }
}

} // verus!
