//! CLC / CLD / CLI / CLV: clear a named flag through the canonical setter.

use vstd::prelude::*;
use crate::cpu::Mos6502;
use crate::exec::{Error, reserved_intact, with_flags};
use crate::flags::{Flags, spec_clear};

verus! {

/// Clears the selected flags, leaving the others alone.
pub fn exec(cpu: &mut Mos6502, flag_selector: Flags) -> (r: Result<(), Error>)
    ensures
        reserved_intact(*old(cpu), *final(cpu)),
        r == Ok::<(), Error>(()),
        *final(cpu) == with_flags(*old(cpu), spec_clear(old(cpu).flags.bits, flag_selector.bits)),
{
    cpu.flags.clear(flag_selector);
    Ok(())
}

} // verus!
