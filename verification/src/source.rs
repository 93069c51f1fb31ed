//! The compute kernel as text.
//!
//! The kernel is index-identity: invocation `gid` stores `gid` into the three
//! floats of element `gid`. Its text declares how many invocations one
//! work-group runs and at which slot its buffer is bound, so the text is
//! written from those numbers and cannot disagree with them.

use vstd::prelude::*;
use vstd::string::*;

verus! {

/// The pipeline stage a source is compiled for.
#[derive(Debug, Clone, Copy, PartialEq, Eq, Structural)]
pub enum StageKind {
    Compute,
}

/// What a kernel declares about itself: these are properties of the compiled
/// program, not arguments of a dispatch.
#[derive(Debug, Clone, Copy, PartialEq, Eq, Structural)]
pub struct KernelInterface {
    /// Invocations per work-group along x.
    pub local_size_x: u32,
    /// The slot at which the kernel expects its structured buffer.
    pub binding_slot: u32,
}

/// Immutable source text for one stage.
#[derive(Debug, Clone, PartialEq, Eq)]
pub struct ShaderSource {
    text: String,
    kind: StageKind,
    interface: KernelInterface,
}

/// A source, with its text as a sequence of characters.
pub struct SourceView {
    pub text: Seq<char>,
    pub kind: StageKind,
    pub interface: KernelInterface,
}

impl View for ShaderSource {
    type V = SourceView;

    closed spec fn view(&self) -> SourceView {
        SourceView { text: self.text@, kind: self.kind, interface: self.interface }
    }
}

/// The character for one decimal digit.
pub open spec fn digit_char(d: nat) -> char {
    if d == 0 {
        '0'
    } else if d == 1 {
        '1'
    } else if d == 2 {
        '2'
    } else if d == 3 {
        '3'
    } else if d == 4 {
        '4'
    } else if d == 5 {
        '5'
    } else if d == 6 {
        '6'
    } else if d == 7 {
        '7'
    } else if d == 8 {
        '8'
    } else {
        '9'
    }
}

/// `n` in decimal, most significant digit first, without leading zeros.
pub open spec fn decimal(n: nat) -> Seq<char>
    decreases n,
{
    if n < 10 {
        seq![digit_char(n)]
    } else {
        decimal(n / 10).push(digit_char(n % 10))
    }
}

/// The value that a sequence of decimal digits denotes.
pub open spec fn decimal_value(digits: Seq<char>) -> nat
    decreases digits.len(),
{
    if digits.len() == 0 {
        0
    } else {
        10 * decimal_value(digits.drop_last()) + digit_value(digits.last())
    }
}

/// The value of a decimal digit; 0 for any other character.
pub open spec fn digit_value(c: char) -> nat {
    if c == '1' {
        1
    } else if c == '2' {
        2
    } else if c == '3' {
        3
    } else if c == '4' {
        4
    } else if c == '5' {
        5
    } else if c == '6' {
        6
    } else if c == '7' {
        7
    } else if c == '8' {
        8
    } else if c == '9' {
        9
    } else {
        0
    }
}

/// Reading back what [`decimal`] wrote gives the number again, so the numbers
/// in a kernel's text are the numbers of its interface.
pub proof fn decimal_round_trip(n: nat)
    ensures
        decimal_value(decimal(n)) == n,
        decimal(n).len() >= 1,
    decreases n,
{
    if n < 10 {
        let s = seq![digit_char(n)];
        assert(s.drop_last() =~= Seq::<char>::empty());
        assert(decimal_value(s.drop_last()) == 0);
        assert(s.last() == digit_char(n));
    } else {
        decimal_round_trip(n / 10);
        let s = decimal(n / 10).push(digit_char(n % 10));
        assert(s.drop_last() =~= decimal(n / 10));
        assert(s.last() == digit_char(n % 10));
    }
}

/// The kernel's text up to the invocations per work-group.
pub open spec fn kernel_head() -> Seq<char> {
    "#version 450 core\n\n    layout(local_size_x="@
}

/// The kernel's text from there up to the binding slot.
pub open spec fn kernel_binding() -> Seq<char> {
    ") in;\n\n    layout (packed, binding = "@
}

/// The kernel's text from there up to the element count.
pub open spec fn kernel_block() -> Seq<char> {
    ") buffer Pos\n    {\n        float["@
}

/// The rest of the kernel's text: what each invocation does.
pub open spec fn kernel_body() -> Seq<char> {
    "][3] Positions;\n    };\n\n    void main()\n    {\n        uint gid = gl_GlobalInvocationID.x;\n        Positions[gid][0] = gid;\n        Positions[gid][1] = gid;\n        Positions[gid][2] = gid;\n        memoryBarrier();\n    }\n    "@
}

/// The text of the index-identity kernel over `count` elements of three floats.
pub open spec fn kernel_text(interface: KernelInterface, count: nat) -> Seq<char> {
    kernel_head() + decimal(interface.local_size_x as nat) + kernel_binding() + decimal(
        interface.binding_slot as nat,
    ) + kernel_block() + decimal(count) + kernel_body()
}

fn digit_text(d: u64) -> (s: &'static str)
    requires
        d < 10,
    ensures
        s@ == seq![digit_char(d as nat)],
{
    proof {
        reveal_strlit("0");
        reveal_strlit("1");
        reveal_strlit("2");
        reveal_strlit("3");
        reveal_strlit("4");
        reveal_strlit("5");
        reveal_strlit("6");
        reveal_strlit("7");
        reveal_strlit("8");
        reveal_strlit("9");
    }
    let s = if d == 0 {
        "0"
    } else if d == 1 {
        "1"
    } else if d == 2 {
        "2"
    } else if d == 3 {
        "3"
    } else if d == 4 {
        "4"
    } else if d == 5 {
        "5"
    } else if d == 6 {
        "6"
    } else if d == 7 {
        "7"
    } else if d == 8 {
        "8"
    } else {
        "9"
    };
    assert(s@ =~= seq![digit_char(d as nat)]);
    s
}

fn append_decimal(text: &mut String, n: u64)
    ensures
        final(text)@ == old(text)@ + decimal(n as nat),
    decreases n,
{
    if n >= 10 {
        append_decimal(text, n / 10);
    }
    text.append(digit_text(n % 10));
    proof {
        if n >= 10 {
            assert(text@ =~= old(text)@ + decimal(n as nat));
        } else {
            assert(text@ =~= old(text)@ + decimal(n as nat));
        }
    }
}

impl ShaderSource {
    /// Source text from outside, with the interface that the text declares.
    pub fn new(text: String, kind: StageKind, interface: KernelInterface) -> (source: ShaderSource)
        ensures
            source@ == (SourceView { text: text@, kind, interface }),
    {
        ShaderSource { text, kind, interface }
    }

    /// The index-identity kernel for a buffer of `count` elements.
    pub fn index_kernel(interface: KernelInterface, count: u64) -> (source: ShaderSource)
        ensures
            source@ == (SourceView {
                text: kernel_text(interface, count as nat),
                kind: StageKind::Compute,
                interface,
            }),
    {
        let mut text = String::from_str("#version 450 core\n\n    layout(local_size_x=");
        append_decimal(&mut text, interface.local_size_x as u64);
        text.append(") in;\n\n    layout (packed, binding = ");
        append_decimal(&mut text, interface.binding_slot as u64);
        text.append(") buffer Pos\n    {\n        float[");
        append_decimal(&mut text, count);
        text.append(
            "][3] Positions;\n    };\n\n    void main()\n    {\n        uint gid = gl_GlobalInvocationID.x;\n        Positions[gid][0] = gid;\n        Positions[gid][1] = gid;\n        Positions[gid][2] = gid;\n        memoryBarrier();\n    }\n    ",
        );
        ShaderSource { text, kind: StageKind::Compute, interface }
    }

    /// A second copy of the source, equal to the first in every part.
    pub fn duplicate(&self) -> (copy: ShaderSource)
        ensures
            copy@ == self@,
    {
        ShaderSource { text: self.text.clone(), kind: self.kind, interface: self.interface }
    }

    pub fn text(&self) -> (text: &str)
        ensures
            text@ == self@.text,
    {
        self.text.as_str()
    }

    pub fn kind(&self) -> (kind: StageKind)
        ensures
            kind == self@.kind,
    {
        self.kind
    }

    pub fn interface(&self) -> (interface: KernelInterface)
        ensures
            interface == self@.interface,
    {
        self.interface
    }
}

} // verus!
