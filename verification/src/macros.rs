//! What the annotation of an iterator program says, and the section that the
//! annotated function is placed in.
//!
//! The annotation is read from the program's source by the caller. What is
//! decided here is which arguments it may have, and the name of the section,
//! which the loader reads back.

use vstd::prelude::*;
use vstd::string::{is_ascii_spec_bytes, StringSliceAdditionalSpecFns};
use crate::bytes::{bytes_eq, concat, is_first};
use crate::obj::{copy_bytes, spec_section_kind, ProgramKind, SectionNameModel};
use crate::search::{first_where, lemma_first_where};

verus! {

/// One argument of an annotation: a name with a string, or a bare name.
#[derive(Debug)]
pub enum Arg {
    NameValue { name: Vec<u8>, value: Vec<u8> },
    Flag { name: Vec<u8> },
}

/// Why the arguments of an annotation were refused.
#[derive(Clone, Copy, Debug, PartialEq, Eq, Structural)]
pub enum ArgError {
    /// The target has to be specified.
    MissingTarget,
    /// An argument is neither the target nor, once, the flag of a program
    /// that may sleep.
    InvalidArgument,
}

/// The annotation of an iterator program: what the program walks, and
/// whether it may sleep.
#[derive(Debug)]
pub struct Iter {
    pub target: Vec<u8>,
    pub sleepable: bool,
}

/// The annotation of an iterator program, as a value of specifications.
pub struct IterModel {
    pub target: Seq<u8>,
    pub sleepable: bool,
}

impl View for Iter {
    type V = IterModel;

    open spec fn view(&self) -> IterModel {
        IterModel { target: self.target@, sleepable: self.sleepable }
    }
}

/// Holds of the argument that names the target.
pub open spec fn is_target() -> spec_fn(Arg) -> bool {
    |a: Arg| a matches Arg::NameValue { name, .. } && name@ == "target".spec_bytes()
}

/// Holds of the flag of a program that may sleep.
pub open spec fn is_sleepable() -> spec_fn(Arg) -> bool {
    |a: Arg| a matches Arg::Flag { name } && name@ == "sleepable".spec_bytes()
}

/// What the arguments of an annotation say.
///
/// The target is the string of the first argument named `target`, which
/// must be there. The program may sleep where the flag `sleepable` is
/// among the arguments. Any argument besides these two is refused.
pub open spec fn spec_parse_args(args: Seq<Arg>) -> Result<IterModel, ArgError> {
    let t = first_where(args, is_target());
    let s = first_where(args, is_sleepable());
    let sleepable = s < args.len();
    if t >= args.len() {
        Err(ArgError::MissingTarget)
    } else if args.len() != 1 + if sleepable {
        1int
    } else {
        0int
    } {
        Err(ArgError::InvalidArgument)
    } else {
        Ok(IterModel { target: args[t]->NameValue_value@, sleepable })
    }
}

/// The section of an iterator program: `iter/<target>`, or
/// `iter.s/<target>` where the program may sleep.
pub open spec fn spec_section_name(it: IterModel) -> Seq<u8> {
    if it.sleepable {
        "iter.s/".spec_bytes() + it.target
    } else {
        "iter/".spec_bytes() + it.target
    }
}

fn find_target(args: &Vec<Arg>) -> (r: usize)
    ensures
        r == first_where(args@, is_target()),
        r <= args@.len(),
        r < args@.len() ==> args@[r as int] is NameValue,
{
    let mut i: usize = 0;
    while i < args.len()
        invariant
            i <= args@.len(),
            forall|j: int| 0 <= j < i ==> !is_target()(#[trigger] args@[j]),
        decreases args@.len() - i,
    {
        let found: bool = match &args[i] {
            Arg::NameValue { name, .. } => bytes_eq(name.as_slice(), "target".as_bytes()),
            Arg::Flag { .. } => false,
        };
        if found {
            proof {
                lemma_first_where(args@, is_target(), i as int);
            }
            return i;
        }
        i = i + 1;
    }
    proof {
        lemma_first_where(args@, is_target(), i as int);
    }
    i
}

fn find_sleepable(args: &Vec<Arg>) -> (r: usize)
    ensures
        r == first_where(args@, is_sleepable()),
        r <= args@.len(),
{
    let mut i: usize = 0;
    while i < args.len()
        invariant
            i <= args@.len(),
            forall|j: int| 0 <= j < i ==> !is_sleepable()(#[trigger] args@[j]),
        decreases args@.len() - i,
    {
        let found: bool = match &args[i] {
            Arg::Flag { name } => bytes_eq(name.as_slice(), "sleepable".as_bytes()),
            Arg::NameValue { .. } => false,
        };
        if found {
            proof {
                lemma_first_where(args@, is_sleepable(), i as int);
            }
            return i;
        }
        i = i + 1;
    }
    proof {
        lemma_first_where(args@, is_sleepable(), i as int);
    }
    i
}

impl Iter {
    /// Reads the arguments of the annotation.
    pub fn parse(args: &Vec<Arg>) -> (r: Result<Iter, ArgError>)
        ensures
            match spec_parse_args(args@) {
                Ok(m) => r is Ok && r->Ok_0@ == m,
                Err(e) => r is Err && r->Err_0 == e,
            },
    {
        let t: usize = find_target(args);
        let s: usize = find_sleepable(args);
        if t >= args.len() {
            return Err(ArgError::MissingTarget);
        }
        let sleepable: bool = s < args.len();
        let expected: usize = if sleepable {
            2
        } else {
            1
        };
        if args.len() != expected {
            return Err(ArgError::InvalidArgument);
        }
        match &args[t] {
            Arg::NameValue { value, .. } => Ok(Iter { target: copy_bytes(value), sleepable }),
            Arg::Flag { .. } => Err(ArgError::MissingTarget),
        }
    }

    /// The name of the section that the annotated function is placed in.
    pub fn section_name(&self) -> (r: Vec<u8>)
        ensures
            r@ == spec_section_name(self@),
    {
        if self.sleepable {
            concat("iter.s/".as_bytes(), self.target.as_slice())
        } else {
            concat("iter/".as_bytes(), self.target.as_slice())
        }
    }
}

/// The bytes of the two section prefixes of iterator programs.
proof fn lemma_iter_prefixes()
    ensures
        "iter/".spec_bytes() == seq![0x69u8, 0x74u8, 0x65u8, 0x72u8, 0x2fu8],
        "iter.s/".spec_bytes() == seq![0x69u8, 0x74u8, 0x65u8, 0x72u8, 0x2eu8, 0x73u8, 0x2fu8],
        "iter".spec_bytes() == seq![0x69u8, 0x74u8, 0x65u8, 0x72u8],
        ".s".spec_bytes() == seq![0x2eu8, 0x73u8],
{
    reveal_strlit("iter/");
    reveal_strlit("iter.s/");
    reveal_strlit("iter");
    reveal_strlit(".s");
    is_ascii_spec_bytes("iter/");
    is_ascii_spec_bytes("iter.s/");
    is_ascii_spec_bytes("iter");
    is_ascii_spec_bytes(".s");
}

/// The lengths of the names of the attach kinds.
proof fn lemma_kind_lengths()
    ensures
        "kprobe".spec_bytes().len() == 6,
        "kretprobe".spec_bytes().len() == 9,
        "uprobe".spec_bytes().len() == 6,
        "uretprobe".spec_bytes().len() == 9,
        "tracepoint".spec_bytes().len() == 10,
        "raw_tracepoint".spec_bytes().len() == 14,
        "socket_filter".spec_bytes().len() == 13,
        "xdp".spec_bytes().len() == 3,
        "sk_msg".spec_bytes().len() == 6,
        "sk_skb".spec_bytes().len() == 6,
        "sockops".spec_bytes().len() == 7,
        "classifier".spec_bytes().len() == 10,
        "lsm".spec_bytes().len() == 3,
        "fentry".spec_bytes().len() == 6,
        "fexit".spec_bytes().len() == 5,
{
    reveal_strlit("kprobe");
    reveal_strlit("kretprobe");
    reveal_strlit("uprobe");
    reveal_strlit("uretprobe");
    reveal_strlit("tracepoint");
    reveal_strlit("raw_tracepoint");
    reveal_strlit("socket_filter");
    reveal_strlit("xdp");
    reveal_strlit("sk_msg");
    reveal_strlit("sk_skb");
    reveal_strlit("sockops");
    reveal_strlit("classifier");
    reveal_strlit("lsm");
    reveal_strlit("fentry");
    reveal_strlit("fexit");
    is_ascii_spec_bytes("kprobe");
    is_ascii_spec_bytes("kretprobe");
    is_ascii_spec_bytes("uprobe");
    is_ascii_spec_bytes("uretprobe");
    is_ascii_spec_bytes("tracepoint");
    is_ascii_spec_bytes("raw_tracepoint");
    is_ascii_spec_bytes("socket_filter");
    is_ascii_spec_bytes("xdp");
    is_ascii_spec_bytes("sk_msg");
    is_ascii_spec_bytes("sk_skb");
    is_ascii_spec_bytes("sockops");
    is_ascii_spec_bytes("classifier");
    is_ascii_spec_bytes("lsm");
    is_ascii_spec_bytes("fentry");
    is_ascii_spec_bytes("fexit");
}

/// The loader reads the section name of an annotated iterator program back
/// as what the annotation said: an iterator program of the target's name,
/// which may sleep where the annotation said so.
pub proof fn law_section_name_is_read_back(it: IterModel)
    ensures
        spec_section_kind(spec_section_name(it)) == Some(
            SectionNameModel { kind: ProgramKind::Iter, sleepable: it.sleepable, name: it.target },
        ),
{
    lemma_iter_prefixes();
    lemma_kind_lengths();
    let name = spec_section_name(it);
    let cut: int = if it.sleepable {
        6
    } else {
        4
    };
    assert(is_first(name, 0x2f, cut));
    let prefix = name.subrange(0, cut);
    let target = name.subrange(cut + 1, name.len() as int);
    assert(target =~= it.target);
    if it.sleepable {
        assert(prefix.subrange(prefix.len() - 2, prefix.len() as int) =~= ".s".spec_bytes());
        assert(prefix.subrange(0, prefix.len() - 2) =~= "iter".spec_bytes());
    } else {
        assert(prefix =~= "iter".spec_bytes());
    }
}

} // verus!
