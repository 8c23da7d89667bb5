//! Commands and key bindings: a command is a structured, user-triggerable
//! operation, and the command builder resolves a raw key chord against the
//! configured bindings.

use vstd::prelude::*;

use crate::models::TagId;

verus! {

/// A structured, dispatchable user intent.  `GoToTag` is handled by the
/// dispatcher itself; `Other` names a custom command that is forwarded to the
/// configuration's command handler.
#[derive(Clone, Debug, PartialEq, Eq)]
pub enum Command {
    GoToTag { tag: TagId, swap: bool },
    Other(String),
}

impl Command {
    /// A copy of the command, provably equal to the value it copies.
    pub fn duplicate(&self) -> (c: Command)
        ensures
            c == *self,
    {
        match self {
            Command::GoToTag { tag, swap } => Command::GoToTag { tag: *tag, swap: *swap },
            Command::Other(name) => Command::Other(name.clone()),
        }
    }
}

/// A key binding with the modifier mask and key symbol already mapped by the
/// configuration; symbol decoding itself happens outside this core.
#[derive(Clone, Debug)]
pub struct Keybind {
    pub modifier_mask: u32,
    pub keysym: u32,
    pub command: Command,
}

/// Whether a binding fires on the given chord.
pub open spec fn binding_matches(b: Keybind, modifier_mask: u32, keysym: u32) -> bool {
    b.modifier_mask == modifier_mask && b.keysym == keysym
}

/// The command a chord resolves to: the first matching binding's command,
/// scanning in declaration order; none when no binding matches.
pub open spec fn resolve_chord(bindings: Seq<Keybind>, modifier_mask: u32, keysym: u32) -> Option<
    Command,
>
    decreases bindings.len(),
{
    if bindings.len() == 0 {
        None
    } else if binding_matches(bindings[0], modifier_mask, keysym) {
        Some(bindings[0].command)
    } else {
        resolve_chord(bindings.skip(1), modifier_mask, keysym)
    }
}

/// Unrolls `resolve_chord` one step into a sequence suffix.
pub proof fn lemma_resolve_chord_skip(
    bindings: Seq<Keybind>,
    modifier_mask: u32,
    keysym: u32,
    i: int,
)
    requires
        0 <= i < bindings.len(),
    ensures
        resolve_chord(bindings.skip(i), modifier_mask, keysym) == (if binding_matches(
            bindings[i],
            modifier_mask,
            keysym,
        ) {
            Some(bindings[i].command)
        } else {
            resolve_chord(bindings.skip(i + 1), modifier_mask, keysym)
        }),
{
    assert(bindings.skip(i).len() > 0);
    assert(bindings.skip(i)[0] == bindings[i]);
    assert(bindings.skip(i).skip(1) =~= bindings.skip(i + 1));
}

/// The command builder: scans the bindings in declaration order and returns
/// the first matching binding's command; an unmatched chord is a valid
/// outcome, not an error.
pub fn build_command(bindings: &Vec<Keybind>, modifier_mask: u32, keysym: u32) -> (r: Option<
    Command,
>)
    ensures
        r == resolve_chord(bindings@, modifier_mask, keysym),
        match r {
            Some(cmd) => exists|k: int|
                0 <= k < bindings@.len() && #[trigger] binding_matches(
                    bindings@[k],
                    modifier_mask,
                    keysym,
                ) && cmd == bindings@[k].command && (forall|j: int|
                    0 <= j < k ==> !binding_matches(bindings@[j], modifier_mask, keysym)),
            None => forall|j: int|
                0 <= j < bindings@.len() ==> !binding_matches(bindings@[j], modifier_mask, keysym),
        },
{
    let n = bindings.len();
    let mut i: usize = 0;
    proof {
        assert(bindings@.skip(0) =~= bindings@);
    }
    while i < n
        invariant
            i <= n,
            n == bindings@.len(),
            resolve_chord(bindings@, modifier_mask, keysym) == resolve_chord(
                bindings@.skip(i as int),
                modifier_mask,
                keysym,
            ),
            forall|j: int| 0 <= j < i ==> !binding_matches(bindings@[j], modifier_mask, keysym),
        decreases n - i,
    {
        proof {
            lemma_resolve_chord_skip(bindings@, modifier_mask, keysym, i as int);
        }
        let b = &bindings[i];
        if b.modifier_mask == modifier_mask && b.keysym == keysym {
            proof {
                assert(binding_matches(bindings@[i as int], modifier_mask, keysym));
                assert(resolve_chord(bindings@, modifier_mask, keysym) == Some(
                    bindings@[i as int].command,
                ));
            }
            return Some(b.command.duplicate());
        }
        i += 1;
    }
    proof {
        assert(bindings@.skip(n as int) =~= Seq::<Keybind>::empty());
    }
    None
}

} // verus!
