//! The processor state: eight named 16-bit registers, a wrapping signed
//! instruction pointer, and named condition flags, behind a symbolic
//! (string-keyed) read/write interface. A symbolic name is resolved once, at
//! the boundary, to a closed tag; every routing rule is then a total case
//! split over that tag.

use vstd::prelude::*;

use crate::register::Register;
use crate::register::low_byte;
use crate::register::high_byte;
use crate::register::with_low_byte;
use crate::register::with_high_byte;
use crate::register::lemma_byte_alias_independence;

verus! {

/// A caller-input error of the symbolic interface. None of these corrupts
/// state: the operation that reports one leaves the state unchanged.
#[derive(Debug, Clone, Copy, PartialEq, Eq, Structural)]
pub enum CpuError {
    /// The symbolic name is not in the closed register-name set.
    UnknownRegister,
    /// The symbolic name is not in the closed flag-name set.
    UnknownFlag,
    /// The operation is not allowed on that operand (writing `ip` through
    /// the generic register-write path).
    InvalidOperation,
}

/// The closed set of register operands: one tag per symbolic register name.
/// Byte tags address one half of a general-purpose register; word tags
/// address a full register.
#[derive(Debug, Clone, Copy, PartialEq, Eq, Structural)]
pub enum RegName {
    Al,
    Ah,
    Ax,
    Bl,
    Bh,
    Bx,
    Cl,
    Ch,
    Cx,
    Dl,
    Dh,
    Dx,
    Si,
    Di,
    Bp,
    Sp,
}

/// The mathematical model of a processor state: each register as its bare
/// word, the instruction pointer, and the two flags.
pub struct StateModel {
    pub ax: u16,
    pub bx: u16,
    pub cx: u16,
    pub dx: u16,
    pub si: u16,
    pub di: u16,
    pub bp: u16,
    pub sp: u16,
    pub ip: i16,
    pub sign: bool,
    pub zero: bool,
}

/// The reset state: every register zero, the instruction pointer zero, both
/// flags clear.
pub open spec fn reset_model() -> StateModel {
    StateModel {
        ax: 0,
        bx: 0,
        cx: 0,
        dx: 0,
        si: 0,
        di: 0,
        bp: 0,
        sp: 0,
        ip: 0,
        sign: false,
        zero: false,
    }
}

/// Which tag, if any, a symbolic register name resolves to. The set of
/// recognised names is fixed and closed; resolution is case-sensitive on the
/// lowercase canonical forms.
pub open spec fn reg_name_of(name: Seq<char>) -> Option<RegName> {
    if name == "al"@ {
        Some(RegName::Al)
    } else if name == "ah"@ {
        Some(RegName::Ah)
    } else if name == "ax"@ {
        Some(RegName::Ax)
    } else if name == "bl"@ {
        Some(RegName::Bl)
    } else if name == "bh"@ {
        Some(RegName::Bh)
    } else if name == "bx"@ {
        Some(RegName::Bx)
    } else if name == "cl"@ {
        Some(RegName::Cl)
    } else if name == "ch"@ {
        Some(RegName::Ch)
    } else if name == "cx"@ {
        Some(RegName::Cx)
    } else if name == "dl"@ {
        Some(RegName::Dl)
    } else if name == "dh"@ {
        Some(RegName::Dh)
    } else if name == "dx"@ {
        Some(RegName::Dx)
    } else if name == "si"@ {
        Some(RegName::Si)
    } else if name == "di"@ {
        Some(RegName::Di)
    } else if name == "bp"@ {
        Some(RegName::Bp)
    } else if name == "sp"@ {
        Some(RegName::Sp)
    } else {
        None
    }
}

/// Whether a tag addresses an 8-bit byte view.
pub open spec fn is_byte_reg(t: RegName) -> bool {
    match t {
        RegName::Al => true,
        RegName::Ah => true,
        RegName::Bl => true,
        RegName::Bh => true,
        RegName::Cl => true,
        RegName::Ch => true,
        RegName::Dl => true,
        RegName::Dh => true,
        _ => false,
    }
}

/// The symbolic name is in the closed 8-bit register-name set.
pub open spec fn is_byte_name(name: Seq<char>) -> bool {
    reg_name_of(name) matches Some(t) && is_byte_reg(t)
}

/// The symbolic name is in the closed 16-bit register-name set.
pub open spec fn is_word_name(name: Seq<char>) -> bool {
    reg_name_of(name) matches Some(t) && !is_byte_reg(t)
}

/// The symbolic name is in the closed register-name set (either width).
pub open spec fn is_register_name(name: Seq<char>) -> bool {
    reg_name_of(name) is Some
}

/// The symbolic name is in the closed flag-name set.
pub open spec fn is_flag_name(name: Seq<char>) -> bool {
    name == "sign"@ || name == "zero"@
}

/// What reading a register operand yields: the full word for a word tag,
/// the byte view zero-extended to 16 bits for a byte tag.
pub open spec fn reg_read(m: StateModel, t: RegName) -> u16 {
    match t {
        RegName::Al => low_byte(m.ax) as u16,
        RegName::Ah => high_byte(m.ax) as u16,
        RegName::Ax => m.ax,
        RegName::Bl => low_byte(m.bx) as u16,
        RegName::Bh => high_byte(m.bx) as u16,
        RegName::Bx => m.bx,
        RegName::Cl => low_byte(m.cx) as u16,
        RegName::Ch => high_byte(m.cx) as u16,
        RegName::Cx => m.cx,
        RegName::Dl => low_byte(m.dx) as u16,
        RegName::Dh => high_byte(m.dx) as u16,
        RegName::Dx => m.dx,
        RegName::Si => m.si,
        RegName::Di => m.di,
        RegName::Bp => m.bp,
        RegName::Sp => m.sp,
    }
}

/// What writing a register operand produces: the model with the full word
/// replaced for a word tag, or with only the addressed byte replaced — the
/// other byte of the same word kept — for a byte tag. A byte write stores
/// only the low 8 bits of `v`.
pub open spec fn reg_write(m: StateModel, t: RegName, v: u16) -> StateModel {
    match t {
        RegName::Al => StateModel { ax: with_low_byte(m.ax, v as u8), ..m },
        RegName::Ah => StateModel { ax: with_high_byte(m.ax, v as u8), ..m },
        RegName::Ax => StateModel { ax: v, ..m },
        RegName::Bl => StateModel { bx: with_low_byte(m.bx, v as u8), ..m },
        RegName::Bh => StateModel { bx: with_high_byte(m.bx, v as u8), ..m },
        RegName::Bx => StateModel { bx: v, ..m },
        RegName::Cl => StateModel { cx: with_low_byte(m.cx, v as u8), ..m },
        RegName::Ch => StateModel { cx: with_high_byte(m.cx, v as u8), ..m },
        RegName::Cx => StateModel { cx: v, ..m },
        RegName::Dl => StateModel { dx: with_low_byte(m.dx, v as u8), ..m },
        RegName::Dh => StateModel { dx: with_high_byte(m.dx, v as u8), ..m },
        RegName::Dx => StateModel { dx: v, ..m },
        RegName::Si => StateModel { si: v, ..m },
        RegName::Di => StateModel { di: v, ..m },
        RegName::Bp => StateModel { bp: v, ..m },
        RegName::Sp => StateModel { sp: v, ..m },
    }
}

/// What a symbolic read returns, or `None` for a name outside the closed
/// set.
pub open spec fn spec_register_value(m: StateModel, name: Seq<char>) -> Option<u16> {
    match reg_name_of(name) {
        Some(t) => Some(reg_read(m, t)),
        None => None,
    }
}

/// What a symbolic write produces. The name `ip` is deliberately rejected
/// with `InvalidOperation`; any other unrecognised name, with
/// `UnknownRegister`.
pub open spec fn spec_set_register(m: StateModel, name: Seq<char>, v: u16) -> Result<
    StateModel,
    CpuError,
> {
    match reg_name_of(name) {
        Some(t) => Ok(reg_write(m, t, v)),
        None => if name == "ip"@ {
            Err(CpuError::InvalidOperation)
        } else {
            Err(CpuError::UnknownRegister)
        },
    }
}

/// What a symbolic flag write produces: the model with the named flag
/// replaced, or `UnknownFlag` for a name outside the closed flag set.
pub open spec fn spec_set_flag(m: StateModel, name: Seq<char>, v: bool) -> Result<
    StateModel,
    CpuError,
> {
    if name == "sign"@ {
        Ok(StateModel { sign: v, ..m })
    } else if name == "zero"@ {
        Ok(StateModel { zero: v, ..m })
    } else {
        Err(CpuError::UnknownFlag)
    }
}

/// Signed 16-bit addition with two's-complement wraparound, the defined
/// semantics of instruction-pointer adjustment.
pub open spec fn wrap_add_i16(a: i16, b: i16) -> i16 {
    if a + b > i16::MAX {
        (a + b - 0x10000) as i16
    } else if a + b < i16::MIN {
        (a + b + 0x10000) as i16
    } else {
        (a + b) as i16
    }
}

/// Whether two strings hold the same characters.
fn names_equal(a: &str, b: &str) -> (r: bool)
    ensures
        r == (a@ == b@),
{
    let n: usize = a.unicode_len();
    let m: usize = b.unicode_len();
    if n != m {
        return false;
    }
    let mut i: usize = 0;
    while i < n
        invariant
            n == a@.len(),
            n == b@.len(),
            i <= n,
            forall|j: int| 0 <= j < i ==> a@[j] == b@[j],
        decreases n - i,
    {
        if a.get_char(i) != b.get_char(i) {
            return false;
        }
        i = i + 1;
    }
    proof {
        assert(a@ =~= b@);
    }
    true
}

/// Resolve a symbolic register name to its tag, once, at the boundary; a
/// name outside the closed set resolves to `None`.
pub fn resolve_register(register: &str) -> (t: Option<RegName>)
    ensures
        t == reg_name_of(register@),
{
    if names_equal(register, "al") {
        Some(RegName::Al)
    } else if names_equal(register, "ah") {
        Some(RegName::Ah)
    } else if names_equal(register, "ax") {
        Some(RegName::Ax)
    } else if names_equal(register, "bl") {
        Some(RegName::Bl)
    } else if names_equal(register, "bh") {
        Some(RegName::Bh)
    } else if names_equal(register, "bx") {
        Some(RegName::Bx)
    } else if names_equal(register, "cl") {
        Some(RegName::Cl)
    } else if names_equal(register, "ch") {
        Some(RegName::Ch)
    } else if names_equal(register, "cx") {
        Some(RegName::Cx)
    } else if names_equal(register, "dl") {
        Some(RegName::Dl)
    } else if names_equal(register, "dh") {
        Some(RegName::Dh)
    } else if names_equal(register, "dx") {
        Some(RegName::Dx)
    } else if names_equal(register, "si") {
        Some(RegName::Si)
    } else if names_equal(register, "di") {
        Some(RegName::Di)
    } else if names_equal(register, "bp") {
        Some(RegName::Bp)
    } else if names_equal(register, "sp") {
        Some(RegName::Sp)
    } else {
        None
    }
}

/// The processor state. Registers, instruction pointer and flags are all
/// reset to zero at construction; every later change goes through the
/// mutating operations below.
#[derive(Debug)]
pub struct CpuState {
    pub ax: Register,
    pub bx: Register,
    pub cx: Register,
    pub dx: Register,
    pub si: Register,
    pub di: Register,
    pub bp: Register,
    pub sp: Register,
    pub ip: i16,
    pub sign_flag: bool,
    pub zero_flag: bool,
}

impl View for CpuState {
    type V = StateModel;

    open spec fn view(&self) -> StateModel {
        StateModel {
            ax: self.ax@,
            bx: self.bx@,
            cx: self.cx@,
            dx: self.dx@,
            si: self.si@,
            di: self.di@,
            bp: self.bp@,
            sp: self.sp@,
            ip: self.ip,
            sign: self.sign_flag,
            zero: self.zero_flag,
        }
    }
}

impl CpuState {
    /// A freshly constructed processor state is fully reset: all registers
    /// zero, instruction pointer zero, both flags clear.
    pub fn new() -> (s: CpuState)
        ensures
            s@ == reset_model(),
    {
        CpuState {
            ax: Register::new(),
            bx: Register::new(),
            cx: Register::new(),
            dx: Register::new(),
            si: Register::new(),
            di: Register::new(),
            bp: Register::new(),
            sp: Register::new(),
            ip: 0i16,
            sign_flag: false,
            zero_flag: false,
        }
    }

    /// Read a register through its symbolic name: the full word for a
    /// 16-bit name, the byte view zero-extended (high bits always 0) for an
    /// 8-bit name, and `UnknownRegister` for a name outside the closed set.
    pub fn get_register_value(&self, register: &str) -> (r: Result<u16, CpuError>)
        ensures
            r == (match spec_register_value(self@, register@) {
                Some(v) => Ok::<u16, CpuError>(v),
                None => Err::<u16, CpuError>(CpuError::UnknownRegister),
            }),
    {
        match resolve_register(register) {
            Some(RegName::Al) => Ok(self.ax.get_low() as u16),
            Some(RegName::Ah) => Ok(self.ax.get_high() as u16),
            Some(RegName::Ax) => Ok(self.ax.get()),
            Some(RegName::Bl) => Ok(self.bx.get_low() as u16),
            Some(RegName::Bh) => Ok(self.bx.get_high() as u16),
            Some(RegName::Bx) => Ok(self.bx.get()),
            Some(RegName::Cl) => Ok(self.cx.get_low() as u16),
            Some(RegName::Ch) => Ok(self.cx.get_high() as u16),
            Some(RegName::Cx) => Ok(self.cx.get()),
            Some(RegName::Dl) => Ok(self.dx.get_low() as u16),
            Some(RegName::Dh) => Ok(self.dx.get_high() as u16),
            Some(RegName::Dx) => Ok(self.dx.get()),
            Some(RegName::Si) => Ok(self.si.get()),
            Some(RegName::Di) => Ok(self.di.get()),
            Some(RegName::Bp) => Ok(self.bp.get()),
            Some(RegName::Sp) => Ok(self.sp.get()),
            None => Err(CpuError::UnknownRegister),
        }
    }

    /// Write a register through its symbolic name: the full word for a
    /// 16-bit name; for an 8-bit name only the low 8 bits of `value` are
    /// stored (upper bits silently truncated, never rejected). Writing `ip`
    /// here is deliberately rejected with `InvalidOperation` — the
    /// instruction pointer moves only through `modify_ip` — and any other
    /// unrecognised name with `UnknownRegister`. On any error the state is
    /// left exactly as it was.
    pub fn set_new_register_value(&mut self, register: &str, value: u16) -> (r: Result<
        (),
        CpuError,
    >)
        ensures
            (match spec_set_register(old(self)@, register@, value) {
                Ok(m) => r == Ok::<(), CpuError>(()) && final(self)@ == m,
                Err(e) => r == Err::<(), CpuError>(e) && final(self)@ == old(self)@,
            }),
    {
        match resolve_register(register) {
            Some(RegName::Al) => {
                self.ax.set_low(#[verifier::truncate] (value as u8));
                Ok(())
            },
            Some(RegName::Ah) => {
                self.ax.set_high(#[verifier::truncate] (value as u8));
                Ok(())
            },
            Some(RegName::Ax) => {
                self.ax.set(value);
                Ok(())
            },
            Some(RegName::Bl) => {
                self.bx.set_low(#[verifier::truncate] (value as u8));
                Ok(())
            },
            Some(RegName::Bh) => {
                self.bx.set_high(#[verifier::truncate] (value as u8));
                Ok(())
            },
            Some(RegName::Bx) => {
                self.bx.set(value);
                Ok(())
            },
            Some(RegName::Cl) => {
                self.cx.set_low(#[verifier::truncate] (value as u8));
                Ok(())
            },
            Some(RegName::Ch) => {
                self.cx.set_high(#[verifier::truncate] (value as u8));
                Ok(())
            },
            Some(RegName::Cx) => {
                self.cx.set(value);
                Ok(())
            },
            Some(RegName::Dl) => {
                self.dx.set_low(#[verifier::truncate] (value as u8));
                Ok(())
            },
            Some(RegName::Dh) => {
                self.dx.set_high(#[verifier::truncate] (value as u8));
                Ok(())
            },
            Some(RegName::Dx) => {
                self.dx.set(value);
                Ok(())
            },
            Some(RegName::Si) => {
                self.si.set(value);
                Ok(())
            },
            Some(RegName::Di) => {
                self.di.set(value);
                Ok(())
            },
            Some(RegName::Bp) => {
                self.bp.set(value);
                Ok(())
            },
            Some(RegName::Sp) => {
                self.sp.set(value);
                Ok(())
            },
            None => {
                if names_equal(register, "ip") {
                    Err(CpuError::InvalidOperation)
                } else {
                    Err(CpuError::UnknownRegister)
                }
            },
        }
    }

    /// Write a flag through its symbolic name, or reject a name outside the
    /// closed flag set with `UnknownFlag`, leaving the state as it was.
    pub fn set_flag(&mut self, flag: &str, value: bool) -> (r: Result<(), CpuError>)
        ensures
            (match spec_set_flag(old(self)@, flag@, value) {
                Ok(m) => r == Ok::<(), CpuError>(()) && final(self)@ == m,
                Err(e) => r == Err::<(), CpuError>(e) && final(self)@ == old(self)@,
            }),
    {
        if names_equal(flag, "sign") {
            self.sign_flag = value;
            Ok(())
        } else if names_equal(flag, "zero") {
            self.zero_flag = value;
            Ok(())
        } else {
            Err(CpuError::UnknownFlag)
        }
    }

    /// Read the instruction pointer.
    pub fn get_ip(&self) -> (ip: i16)
        ensures
            ip == self@.ip,
    {
        self.ip
    }

    /// Add `value` to the instruction pointer with two's-complement 16-bit
    /// wraparound; registers and flags are untouched. Never panics or
    /// saturates: overflow wraps by design.
    pub fn modify_ip(&mut self, value: i16)
        ensures
            final(self)@ == (StateModel { ip: wrap_add_i16(old(self)@.ip, value), ..old(self)@ }),
    {
        self.ip = self.ip.wrapping_add(value);
    }
}

/// Law: a symbolic read through any name in the 8-bit name set yields a
/// value that fits in a byte — the zero extension never sign-extends, so the
/// high bits of the returned word are always 0.
pub proof fn lemma_byte_name_reads_bounded(m: StateModel, name: Seq<char>)
    requires
        is_byte_name(name),
    ensures
        (spec_register_value(m, name) matches Some(v) && v <= 0xFF),
{
}

/// Law: in the reset state every symbolic register name reads zero.
pub proof fn lemma_reset_state_reads_zero(name: Seq<char>)
    requires
        is_register_name(name),
    ensures
        spec_register_value(reset_model(), name) == Some(0u16),
{
    assert(low_byte(0) == 0) by (bit_vector);
    assert(high_byte(0) == 0) by (bit_vector);
}

/// Law: the symbolic operations succeed exactly on the closed name sets —
/// a read or write through any name in the register-name set always
/// succeeds, one through any name outside it always fails, and likewise for
/// the flag set. Success never depends on the state or on the value written.
pub proof fn lemma_success_exactly_on_known_names(
    m: StateModel,
    name: Seq<char>,
    v: u16,
    b: bool,
)
    ensures
        spec_register_value(m, name) is Some <==> is_register_name(name),
        spec_set_register(m, name, v) is Ok <==> is_register_name(name),
        spec_set_flag(m, name, b) is Ok <==> is_flag_name(name),
{
}

/// Law: a symbolic write through any register name succeeds, and reading the
/// same name back yields exactly what was stored — the full word for a
/// 16-bit name, the truncated low 8 bits for an 8-bit name.
pub proof fn lemma_symbolic_round_trip(m: StateModel, name: Seq<char>, v: u16)
    requires
        is_register_name(name),
    ensures
        (spec_set_register(m, name, v) matches Ok(m2) && {
            &&& is_word_name(name) ==> spec_register_value(m2, name) == Some(v)
            &&& is_byte_name(name) ==> spec_register_value(m2, name) == Some((v as u8) as u16)
        }),
{
    let t = reg_name_of(name)->Some_0;
    if is_byte_reg(t) {
        match t {
            RegName::Al | RegName::Ah => lemma_byte_alias_independence(m.ax, v as u8),
            RegName::Bl | RegName::Bh => lemma_byte_alias_independence(m.bx, v as u8),
            RegName::Cl | RegName::Ch => lemma_byte_alias_independence(m.cx, v as u8),
            RegName::Dl | RegName::Dh => lemma_byte_alias_independence(m.dx, v as u8),
            _ => (),
        }
    }
}

/// Law: a symbolic write through an 8-bit name changes only the addressed
/// byte view of its word: the sibling byte of the same register keeps its
/// prior value, and every other register, the instruction pointer and both
/// flags are untouched.
pub proof fn lemma_byte_write_frames_sibling(m: StateModel, name: Seq<char>, v: u16)
    requires
        is_byte_name(name),
    ensures
        (spec_set_register(m, name, v) matches Ok(m2) && {
            let t = reg_name_of(name)->Some_0;
            match t {
                RegName::Al => high_byte(m2.ax) == high_byte(m.ax),
                RegName::Ah => low_byte(m2.ax) == low_byte(m.ax),
                RegName::Bl => high_byte(m2.bx) == high_byte(m.bx),
                RegName::Bh => low_byte(m2.bx) == low_byte(m.bx),
                RegName::Cl => high_byte(m2.cx) == high_byte(m.cx),
                RegName::Ch => low_byte(m2.cx) == low_byte(m.cx),
                RegName::Dl => high_byte(m2.dx) == high_byte(m.dx),
                RegName::Dh => low_byte(m2.dx) == low_byte(m.dx),
                _ => false,
            }
        }),
{
    let t = reg_name_of(name)->Some_0;
    match t {
        RegName::Al | RegName::Ah => lemma_byte_alias_independence(m.ax, v as u8),
        RegName::Bl | RegName::Bh => lemma_byte_alias_independence(m.bx, v as u8),
        RegName::Cl | RegName::Ch => lemma_byte_alias_independence(m.cx, v as u8),
        RegName::Dl | RegName::Dh => lemma_byte_alias_independence(m.dx, v as u8),
        _ => (),
    }
}

} // verus!
