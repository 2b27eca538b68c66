//! The flags that tell a render callback in which phase of rendering it is
//! called.

use vstd::prelude::*;
use vstd::string::StringExecFns;

verus! {

/// The callback runs before the render operation.
pub const PRE_RENDER: u32 = 0x004;

/// The callback runs after the render operation.
pub const POST_RENDER: u32 = 0x008;

/// The buffer holds only silence.
pub const OUTPUT_IS_SILENCE: u32 = 0x010;

/// An offline unit is being preflighted.
pub const OFFLINE_PREFLIGHT: u32 = 0x020;

/// An offline unit is rendering.
pub const OFFLINE_RENDER: u32 = 0x040;

/// An offline unit has completed its preflight or its rendering.
pub const OFFLINE_COMPLETE: u32 = 0x080;

/// The render operation returned an error; seen on the call after it.
pub const POST_RENDER_ERROR: u32 = 0x100;

/// The arguments of the render call are not checked.
pub const DO_NOT_CHECK_RENDER_ARGS: u32 = 0x200;

/// Every flag that has a name.
pub const ALL: u32 = 0x3fc;

/// A set of render action flags. It never holds a bit without a name.
#[derive(Copy, Clone, Debug)]
pub struct ActionFlags {
    bits: u32,
}

impl View for ActionFlags {
    type V = u32;

    closed spec fn view(&self) -> u32 {
        self.bits
    }
}

impl ActionFlags {
    #[verifier::type_invariant]
    spec fn only_named_bits(self) -> bool {
        self.bits & !ALL == 0
    }

    /// The set without any flag.
    pub fn empty() -> (flags: ActionFlags)
        ensures
            flags@ == 0,
    {
        assert(0u32 & !ALL == 0) by (bit_vector);
        ActionFlags { bits: 0 }
    }

    /// The set of all flags.
    pub fn all() -> (flags: ActionFlags)
        ensures
            flags@ == ALL,
    {
        assert(ALL & !ALL == 0) by (bit_vector);
        ActionFlags { bits: ALL }
    }

    /// The flags as a word.
    pub fn bits(&self) -> (bits: u32)
        ensures
            bits == self@,
            bits & !ALL == 0,
    {
        proof {
            use_type_invariant(self);
        }
        self.bits
    }

    /// The set that `bits` spells, if every bit of it has a name.
    pub fn from_bits(bits: u32) -> (flags: Option<ActionFlags>)
        ensures
            match flags {
                Some(flags) => bits & !ALL == 0 && flags@ == bits,
                None => bits & !ALL != 0,
            },
    {
        if bits & !ALL == 0 {
            Some(ActionFlags { bits })
        } else {
            None
        }
    }

    /// The set of the named flags in `bits`; bits without a name are left
    /// out.
    pub fn from_bits_truncate(bits: u32) -> (flags: ActionFlags)
        ensures
            flags@ == truncated(bits),
    {
        assert((bits & ALL) & !ALL == 0) by (bit_vector);
        ActionFlags { bits: bits & ALL }
    }

    /// Whether the set holds no flag.
    pub fn is_empty(&self) -> (b: bool)
        ensures
            b == (self@ == 0),
    {
        self.bits == 0
    }

    /// Whether the set holds every flag of `other`.
    pub fn contains(&self, other: ActionFlags) -> (b: bool)
        ensures
            b == (self@ & other@ == other@),
    {
        self.bits & other.bits == other.bits
    }

    /// The set of the flags that are in `self` or in `other`.
    pub fn union(&self, other: ActionFlags) -> (flags: ActionFlags)
        ensures
            flags@ == self@ | other@,
    {
        proof {
            use_type_invariant(self);
            use_type_invariant(&other);
        }
        let a = self.bits;
        let b = other.bits;
        assert((a | b) & !ALL == 0) by (bit_vector)
            requires
                a & !ALL == 0,
                b & !ALL == 0,
        ;
        ActionFlags { bits: a | b }
    }
}

/// The named flags of a word: what is left of it when the bits without a
/// name are dropped.
pub open spec fn truncated(bits: u32) -> u32 {
    bits & ALL
}

/// Reading a word as flags never fails and never keeps a bit without a
/// name: a word of such bits alone reads as the empty set, and a word of
/// named bits alone reads as itself.
pub proof fn lemma_unnamed_bits_are_dropped(bits: u32)
    ensures
        truncated(bits) & !ALL == 0,
        bits & ALL == 0 ==> truncated(bits) == 0,
        bits & !ALL == 0 ==> truncated(bits) == bits,
{
    assert((bits & ALL) & !ALL == 0) by (bit_vector);
    assert(bits & !ALL == 0 ==> bits & ALL == bits) by (bit_vector);
}

/// `rendered`, with `name` added after a comma if `flag` is in `bits`.
pub open spec fn with_name(rendered: Seq<char>, bits: u32, flag: u32, name: Seq<char>) -> Seq<
    char,
> {
    if bits & flag != flag {
        rendered
    } else if rendered.len() == 0 {
        name
    } else {
        rendered + ", "@ + name
    }
}

/// What a set without a named flag renders as.
pub open spec fn unknown_rendering() -> Seq<char> {
    "<Unknown ActionFlags>"@
}

/// The names of the flags in `bits`, from the lowest bit up, with a comma
/// and a space between two names; nothing if `bits` holds no named flag.
pub open spec fn names_of(bits: u32) -> Seq<char> {
    let r = with_name(Seq::empty(), bits, PRE_RENDER, "PRE_RENDER"@);
    let r = with_name(r, bits, POST_RENDER, "POST_RENDER"@);
    let r = with_name(r, bits, OUTPUT_IS_SILENCE, "OUTPUT_IS_SILENCE"@);
    let r = with_name(r, bits, OFFLINE_PREFLIGHT, "OFFLINE_PREFLIGHT"@);
    let r = with_name(r, bits, OFFLINE_RENDER, "OFFLINE_RENDER"@);
    let r = with_name(r, bits, OFFLINE_COMPLETE, "OFFLINE_COMPLETE"@);
    let r = with_name(r, bits, POST_RENDER_ERROR, "POST_RENDER_ERROR"@);
    with_name(r, bits, DO_NOT_CHECK_RENDER_ARGS, "DO_NOT_CHECK_RENDER_ARGS"@)
}

/// How a set of flags reads in a diagnostic: the name of its flag if it has
/// one, the names of its flags with commas between them if it has several,
/// and a text that is no flag's name if it has none.
pub open spec fn rendering(bits: u32) -> Seq<char> {
    if names_of(bits).len() == 0 {
        unknown_rendering()
    } else {
        names_of(bits)
    }
}

/// Adds `name` to `rendered` if `flag` is in `bits`. `empty` says whether
/// nothing has been rendered yet.
fn push_name(rendered: &mut String, empty: &mut bool, bits: u32, flag: u32, name: &str)
    requires
        *old(empty) == (old(rendered)@.len() == 0),
        name@.len() > 0,
    ensures
        final(rendered)@ == with_name(old(rendered)@, bits, flag, name@),
        *final(empty) == (final(rendered)@.len() == 0),
{
    if bits & flag == flag {
        if !*empty {
            rendered.append(", ");
        }
        rendered.append(name);
        *empty = false;
    }
}

impl ActionFlags {
    /// The set as it reads in a diagnostic.
    pub fn to_string(&self) -> (text: String)
        ensures
            text@ == rendering(self@),
    {
        proof {
            reveal_strlit("<Unknown ActionFlags>");
            reveal_strlit("PRE_RENDER");
            reveal_strlit("POST_RENDER");
            reveal_strlit("OUTPUT_IS_SILENCE");
            reveal_strlit("OFFLINE_PREFLIGHT");
            reveal_strlit("OFFLINE_RENDER");
            reveal_strlit("OFFLINE_COMPLETE");
            reveal_strlit("POST_RENDER_ERROR");
            reveal_strlit("DO_NOT_CHECK_RENDER_ARGS");
        }
        let bits = self.bits;
        let mut text = String::new();
        let mut empty = true;
        push_name(&mut text, &mut empty, bits, PRE_RENDER, "PRE_RENDER");
        push_name(&mut text, &mut empty, bits, POST_RENDER, "POST_RENDER");
        push_name(&mut text, &mut empty, bits, OUTPUT_IS_SILENCE, "OUTPUT_IS_SILENCE");
        push_name(&mut text, &mut empty, bits, OFFLINE_PREFLIGHT, "OFFLINE_PREFLIGHT");
        push_name(&mut text, &mut empty, bits, OFFLINE_RENDER, "OFFLINE_RENDER");
        push_name(&mut text, &mut empty, bits, OFFLINE_COMPLETE, "OFFLINE_COMPLETE");
        push_name(&mut text, &mut empty, bits, POST_RENDER_ERROR, "POST_RENDER_ERROR");
        push_name(&mut text, &mut empty, bits, DO_NOT_CHECK_RENDER_ARGS, "DO_NOT_CHECK_RENDER_ARGS");
        if empty {
            String::from_str("<Unknown ActionFlags>")
        } else {
            text
        }
    }
}

/// A set of one flag renders as the name of that flag, and the empty set
/// as a text that is not empty and is the name of no flag.
pub proof fn lemma_single_flag_rendering()
    ensures
        rendering(PRE_RENDER) == "PRE_RENDER"@,
        rendering(POST_RENDER) == "POST_RENDER"@,
        rendering(OUTPUT_IS_SILENCE) == "OUTPUT_IS_SILENCE"@,
        rendering(OFFLINE_PREFLIGHT) == "OFFLINE_PREFLIGHT"@,
        rendering(OFFLINE_RENDER) == "OFFLINE_RENDER"@,
        rendering(OFFLINE_COMPLETE) == "OFFLINE_COMPLETE"@,
        rendering(POST_RENDER_ERROR) == "POST_RENDER_ERROR"@,
        rendering(DO_NOT_CHECK_RENDER_ARGS) == "DO_NOT_CHECK_RENDER_ARGS"@,
        rendering(0) == unknown_rendering(),
        unknown_rendering().len() > 0,
        unknown_rendering() != "PRE_RENDER"@,
        unknown_rendering() != "POST_RENDER"@,
        unknown_rendering() != "OUTPUT_IS_SILENCE"@,
        unknown_rendering() != "OFFLINE_PREFLIGHT"@,
        unknown_rendering() != "OFFLINE_RENDER"@,
        unknown_rendering() != "OFFLINE_COMPLETE"@,
        unknown_rendering() != "POST_RENDER_ERROR"@,
        unknown_rendering() != "DO_NOT_CHECK_RENDER_ARGS"@,
{
    reveal_strlit("PRE_RENDER");
    reveal_strlit("POST_RENDER");
    reveal_strlit("OUTPUT_IS_SILENCE");
    reveal_strlit("OFFLINE_PREFLIGHT");
    reveal_strlit("OFFLINE_RENDER");
    reveal_strlit("OFFLINE_COMPLETE");
    reveal_strlit("POST_RENDER_ERROR");
    reveal_strlit("DO_NOT_CHECK_RENDER_ARGS");
    reveal_strlit("<Unknown ActionFlags>");
    assert(forall|a: u32, b: u32|
        (a == 0x4 || a == 0x8 || a == 0x10 || a == 0x20 || a == 0x40 || a == 0x80 || a == 0x100 || a
            == 0x200) && (b == 0x4 || b == 0x8 || b == 0x10 || b == 0x20 || b == 0x40 || b == 0x80
            || b == 0x100 || b == 0x200) ==> (#[trigger] (a & b) == b) == (a == b))
        by (bit_vector);
    assert(forall|b: u32|
        (b == 0x4 || b == 0x8 || b == 0x10 || b == 0x20 || b == 0x40 || b == 0x80 || b == 0x100 || b
            == 0x200) ==> #[trigger] (0u32 & b) != b) by (bit_vector);
    assert(unknown_rendering()[0] == '<');
}

} // verus!
