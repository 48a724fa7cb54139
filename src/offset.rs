use vstd::prelude::*;

use iced_x86::{Decoder, DecoderOptions, Mnemonic};

use crate::error::FaitheError;
use crate::pattern::{all_matches, parse_pattern, Pattern};

verus! {

/// Most bytes one x86 instruction can take.
pub const MAX_INSTRUCTION_LEN: usize = 15;

/// Addition of addresses, modulo the size of the address space.
pub open spec fn wrap_add(a: usize, b: usize) -> usize {
    if a + b > usize::MAX {
        (a + b - (usize::MAX + 1)) as usize
    } else {
        (a + b) as usize
    }
}

/// The instruction families that smart resolution tells apart.
#[derive(Debug, Clone, Copy, PartialEq, Eq, Structural)]
pub enum InstructionKind {
    /// Load effective address.
    Lea,
    /// Data move.
    Mov,
    /// Anything else, and bytes that do not decode.
    Other,
}

/// What smart resolution reads of one decoded instruction.
#[derive(Debug, Clone, Copy, PartialEq, Eq, Structural)]
pub struct DecodedInstruction {
    /// The instruction's family.
    pub kind: InstructionKind,
    /// Whether its memory operand is addressed relative to the instruction pointer.
    pub ip_relative: bool,
    /// For such an operand, its target measured from the instruction's first
    /// byte: the instruction's length plus its displacement.
    pub target_from_start: usize,
}

/// The first instruction that 64-bit x86 decoding reads from `code`.
pub uninterp spec fn decoded_of(code: Seq<u8>) -> Option<DecodedInstruction>;

/// Relies on iced_x86's `Decoder` (64-bit, instruction pointer zero): its
/// iterator yields the first instruction of `code`, or nothing when `code` is
/// empty; `mnemonic`, `is_ip_rel_memory_operand` and `memory_displacement64`
/// (the absolute target of an IP-relative operand) describe it.
#[verifier::external_body]
fn decode_first(code: &[u8]) -> (r: Option<DecodedInstruction>)
    ensures
        r == decoded_of(code@),
        code@.len() == 0 ==> r is None,
{
    let ins = Decoder::new(64, code, DecoderOptions::NONE).iter().next()?;
    let kind = match ins.mnemonic() {
        Mnemonic::Lea => InstructionKind::Lea,
        Mnemonic::Mov => InstructionKind::Mov,
        _ => InstructionKind::Other,
    };
    let target: usize = ins.memory_displacement64() as usize;
    Some(DecodedInstruction { kind, ip_relative: ins.is_ip_rel_memory_operand(), target_from_start: target })
}

/// The address that smart resolution gives for the instruction at `found`:
/// only a load-effective-address or a move with an IP-relative memory
/// operand is understood.
pub open spec fn smart_target(found: usize, decoded: Option<DecodedInstruction>, add: usize) -> Result<usize, FaitheError> {
    match decoded {
        Some(d) => if (d.kind == InstructionKind::Lea || d.kind == InstructionKind::Mov) && d.ip_relative {
            Ok(wrap_add(wrap_add(found, d.target_from_start), add))
        } else {
            Err(FaitheError::UnsupportedInstructionShape)
        },
        None => Err(FaitheError::UnsupportedInstructionShape),
    }
}

/// Computes the smart-resolution address from the instruction decoded at
/// address `found`: the end of that instruction, plus its displacement, plus
/// `add`.
pub fn resolve_smart_target(found: usize, decoded: Option<DecodedInstruction>, add: usize) -> (r: Result<usize, FaitheError>)
    ensures
        r == smart_target(found, decoded, add),
{
    match decoded {
        Some(d) => {
            let supported = match d.kind {
                InstructionKind::Lea => true,
                InstructionKind::Mov => true,
                InstructionKind::Other => false,
            };
            if supported && d.ip_relative {
                Ok(found.wrapping_add(d.target_from_start).wrapping_add(add))
            } else {
                Err(FaitheError::UnsupportedInstructionShape)
            }
        },
        None => Err(FaitheError::UnsupportedInstructionShape),
    }
}

/// The state of a symbolic offset, as contracts see it.
pub enum OffsetView {
    /// Resolves to the module base plus this relative offset.
    Explicit(usize),
    /// Resolves to the first match of this IDA-style pattern in the module.
    Pattern(Seq<char>),
    /// Resolves through the instruction at the first match of this pattern.
    Smart(Seq<char>),
    /// Resolved to this address.
    Resolved(usize),
}

/// The bytes of `image` that the instruction at offset `found` may take.
pub open spec fn code_window(image: Seq<u8>, found: int) -> Seq<u8> {
    if found + MAX_INSTRUCTION_LEN <= image.len() {
        image.subrange(found, found + MAX_INSTRUCTION_LEN)
    } else {
        image.subrange(found, image.len() as int)
    }
}

/// The address that resolving `state` gives, or the reason it fails, for a
/// module whose lookup gave `base` and whose mapped image is `image`.
pub open spec fn resolve_outcome(state: OffsetView, base: Result<usize, FaitheError>, image: Seq<u8>, add: usize) -> Result<usize, FaitheError> {
    match state {
        OffsetView::Resolved(_) => Err(FaitheError::AlreadyResolved),
        OffsetView::Explicit(rva) => match base {
            Err(e) => Err(e),
            Ok(b) => Ok(wrap_add(wrap_add(b, rva), add)),
        },
        OffsetView::Pattern(text) => match base {
            Err(e) => Err(e),
            Ok(b) => match parse_pattern(text, false) {
                Err(e) => Err(e),
                Ok(p) => if all_matches(p, image).len() == 0 {
                    Err(FaitheError::PatternNotFound)
                } else {
                    Ok(wrap_add(wrap_add(b, all_matches(p, image)[0] as usize), add))
                },
            },
        },
        OffsetView::Smart(text) => match base {
            Err(e) => Err(e),
            Ok(b) => match parse_pattern(text, false) {
                Err(e) => Err(e),
                Ok(p) => if all_matches(p, image).len() == 0 {
                    Err(FaitheError::PatternNotFound)
                } else {
                    smart_target(
                        wrap_add(b, all_matches(p, image)[0] as usize),
                        decoded_of(code_window(image, all_matches(p, image)[0])),
                        add,
                    )
                },
            },
        },
    }
}

/// The state after a resolution attempt with this outcome.
pub open spec fn state_after(state: OffsetView, outcome: Result<usize, FaitheError>) -> OffsetView {
    match outcome {
        Ok(a) => OffsetView::Resolved(a),
        Err(_) => state,
    }
}

enum InnerOffset {
    Explicit(usize),
    Pattern(String),
    Smart(String),
    Resolved(usize),
}

/// A symbolic offset: a module-relative locator that resolves to an address
/// once, on first use, and keeps that address from then on.
pub struct RuntimeOffset(InnerOffset);

impl View for RuntimeOffset {
    type V = OffsetView;

    closed spec fn view(&self) -> OffsetView {
        match self.0 {
            InnerOffset::Explicit(o) => OffsetView::Explicit(o),
            InnerOffset::Pattern(t) => OffsetView::Pattern(t@),
            InnerOffset::Smart(t) => OffsetView::Smart(t@),
            InnerOffset::Resolved(a) => OffsetView::Resolved(a),
        }
    }
}

impl RuntimeOffset {
    /// An offset that resolves to the module base plus `offset`.
    pub fn explicit(offset: usize) -> (r: Self)
        ensures
            r@ == OffsetView::Explicit(offset),
    {
        RuntimeOffset(InnerOffset::Explicit(offset))
    }

    /// An offset that resolves to the first match of IDA-style pattern `pat`.
    pub fn pattern(pat: &str) -> (r: Self)
        ensures
            r@ == OffsetView::Pattern(pat@),
    {
        RuntimeOffset(InnerOffset::Pattern(pat.to_owned()))
    }

    /// An offset that resolves through the instruction at the first match of
    /// IDA-style pattern `pat`.
    pub fn smart(pat: &str) -> (r: Self)
        ensures
            r@ == OffsetView::Smart(pat@),
    {
        RuntimeOffset(InnerOffset::Smart(pat.to_owned()))
    }

    /// Whether the offset has resolved.
    pub fn is_resolved(&self) -> (r: bool)
        ensures
            r == (self@ is Resolved),
    {
        match self.0 {
            InnerOffset::Resolved(_) => true,
            _ => false,
        }
    }

    /// The resolved address; asking before resolution is a caller error.
    pub fn address(&self) -> (r: usize)
        requires
            self@ is Resolved,
        ensures
            self@ == OffsetView::Resolved(r),
    {
        match self.0 {
            InnerOffset::Resolved(a) => a,
            _ => 0,
        }
    }

    /// Resolves the offset once. `base` is the module's base address, or the
    /// error its lookup gave; `image` is the module's mapped image, which
    /// pattern strategies scan; `add` is added to the address found. A second
    /// attempt after success fails with `AlreadyResolved`.
    pub fn try_resolve(&mut self, base: Result<usize, FaitheError>, image: &[u8], add: usize) -> (r: Result<(), FaitheError>)
        ensures
            r is Ok <==> resolve_outcome(old(self)@, base, image@, add) is Ok,
            r is Err ==> resolve_outcome(old(self)@, base, image@, add) == Err::<usize, FaitheError>(r->Err_0),
            final(self)@ == state_after(old(self)@, resolve_outcome(old(self)@, base, image@, add)),
    {
        let outcome = match &self.0 {
            InnerOffset::Resolved(_) => Err(FaitheError::AlreadyResolved),
            InnerOffset::Explicit(rva) => match base {
                Err(e) => Err(e),
                Ok(b) => Ok(b.wrapping_add(*rva).wrapping_add(add)),
            },
            InnerOffset::Pattern(text) => match base {
                Err(e) => Err(e),
                Ok(b) => match locate(text.as_str(), image) {
                    Err(e) => Err(e),
                    Ok(found) => Ok(b.wrapping_add(found).wrapping_add(add)),
                },
            },
            InnerOffset::Smart(text) => match base {
                Err(e) => Err(e),
                Ok(b) => match locate(text.as_str(), image) {
                    Err(e) => Err(e),
                    Ok(found) => {
                        let end: usize = if image.len() - found >= MAX_INSTRUCTION_LEN {
                            found + MAX_INSTRUCTION_LEN
                        } else {
                            image.len()
                        };
                        let decoded = decode_first(&image[found..end]);
                        resolve_smart_target(b.wrapping_add(found), decoded, add)
                    },
                },
            },
        };
        match outcome {
            Ok(a) => {
                self.0 = InnerOffset::Resolved(a);
                Ok(())
            },
            Err(e) => Err(e),
        }
    }
}

/// Compiles IDA-style text and finds its first match in `image`.
fn locate(text: &str, image: &[u8]) -> (r: Result<usize, FaitheError>)
    ensures
        match parse_pattern(text@, false) {
            Err(e) => r == Err::<usize, FaitheError>(e),
            Ok(p) => if all_matches(p, image@).len() == 0 {
                r == Err::<usize, FaitheError>(FaitheError::PatternNotFound)
            } else {
                r is Ok && r->Ok_0 as int == all_matches(p, image@)[0] && r->Ok_0 <= image@.len()
            },
        },
{
    let pat = match Pattern::try_from_ida_style(text) {
        Ok(p) => p,
        Err(e) => return Err(e),
    };
    match pat.find_first(image) {
        Some(i) => Ok(i),
        None => Err(FaitheError::PatternNotFound),
    }
}

/// Resolution happens at most once: after an attempt that gives an address,
/// the offset holds that address, and any later attempt, whatever module it
/// is given, fails with `AlreadyResolved` and leaves that address in place.
pub proof fn resolution_happens_once(
    state: OffsetView,
    base: Result<usize, FaitheError>,
    image: Seq<u8>,
    add: usize,
    later_base: Result<usize, FaitheError>,
    later_image: Seq<u8>,
    later_add: usize,
)
    requires
        resolve_outcome(state, base, image, add) is Ok,
    ensures
        state_after(state, resolve_outcome(state, base, image, add))
            == OffsetView::Resolved(resolve_outcome(state, base, image, add)->Ok_0),
        resolve_outcome(state_after(state, resolve_outcome(state, base, image, add)), later_base, later_image, later_add)
            == Err::<usize, FaitheError>(FaitheError::AlreadyResolved),
        state_after(
            state_after(state, resolve_outcome(state, base, image, add)),
            resolve_outcome(state_after(state, resolve_outcome(state, base, image, add)), later_base, later_image, later_add),
        ) == state_after(state, resolve_outcome(state, base, image, add)),
{
}

} // verus!
