//! The backend-independent register model: one canonical x86-64 register
//! snapshot, produced by pure, total conversion from each hypervisor
//! backend's native register struct. Fields a backend does not expose —
//! the vector registers and the SSE control word — are populated with
//! zero, a documented fidelity limitation rather than an error.

use vstd::prelude::*;

verus! {

#[verifier::external_type_specification]
pub struct ExKvmRegs(kvm_bindings::kvm_regs);

#[verifier::external_type_specification]
pub struct ExStandardRegisters(mshv_bindings::StandardRegisters);

/// The x86-64 core registers, independent of the hypervisor backend.
#[derive(Debug)]
pub struct X86_64Regs {
    pub rax: u64,
    pub rbx: u64,
    pub rcx: u64,
    pub rdx: u64,
    pub rsi: u64,
    pub rdi: u64,
    pub rbp: u64,
    pub rsp: u64,
    pub r8: u64,
    pub r9: u64,
    pub r10: u64,
    pub r11: u64,
    pub r12: u64,
    pub r13: u64,
    pub r14: u64,
    pub r15: u64,
    /// Instruction pointer.
    pub rip: u64,
    /// Flags register.
    pub rflags: u64,
    /// Vector registers; zero when the backend does not expose them.
    pub xmm: [u128; 16],
    /// SSE control/status word; zero when the backend does not expose it.
    pub mxcsr: u32,
}

impl X86_64Regs {
    /// Whether the fields no backend fills are zero.
    pub open spec fn vector_state_zeroed(&self) -> bool {
        &&& forall|i: int| 0 <= i < 16 ==> self.xmm@[i] == 0
        &&& self.mxcsr == 0
    }

    /// Convert a KVM register snapshot: every general-purpose register,
    /// the instruction pointer and the flags carry over unchanged; the
    /// vector state is zero-filled.
    pub fn from_kvm(regs: &kvm_bindings::kvm_regs) -> (r: X86_64Regs)
        ensures
            r.rax == regs.rax,
            r.rbx == regs.rbx,
            r.rcx == regs.rcx,
            r.rdx == regs.rdx,
            r.rsi == regs.rsi,
            r.rdi == regs.rdi,
            r.rbp == regs.rbp,
            r.rsp == regs.rsp,
            r.r8 == regs.r8,
            r.r9 == regs.r9,
            r.r10 == regs.r10,
            r.r11 == regs.r11,
            r.r12 == regs.r12,
            r.r13 == regs.r13,
            r.r14 == regs.r14,
            r.r15 == regs.r15,
            r.rip == regs.rip,
            r.rflags == regs.rflags,
            r.vector_state_zeroed(),
    {
        X86_64Regs {
            rax: regs.rax,
            rbx: regs.rbx,
            rcx: regs.rcx,
            rdx: regs.rdx,
            rdi: regs.rdi,
            rsi: regs.rsi,
            rsp: regs.rsp,
            rbp: regs.rbp,
            r8: regs.r8,
            r9: regs.r9,
            r10: regs.r10,
            r11: regs.r11,
            r12: regs.r12,
            r13: regs.r13,
            r14: regs.r14,
            r15: regs.r15,
            rip: regs.rip,
            rflags: regs.rflags,
            xmm: [0u128;16],
            mxcsr: 0,
        }
    }

    /// Convert a Microsoft-hypervisor register snapshot, the same way as
    /// the KVM conversion.
    pub fn from_mshv(regs: &mshv_bindings::StandardRegisters) -> (r: X86_64Regs)
        ensures
            r.rax == regs.rax,
            r.rbx == regs.rbx,
            r.rcx == regs.rcx,
            r.rdx == regs.rdx,
            r.rsi == regs.rsi,
            r.rdi == regs.rdi,
            r.rbp == regs.rbp,
            r.rsp == regs.rsp,
            r.r8 == regs.r8,
            r.r9 == regs.r9,
            r.r10 == regs.r10,
            r.r11 == regs.r11,
            r.r12 == regs.r12,
            r.r13 == regs.r13,
            r.r14 == regs.r14,
            r.r15 == regs.r15,
            r.rip == regs.rip,
            r.rflags == regs.rflags,
            r.vector_state_zeroed(),
    {
        X86_64Regs {
            rax: regs.rax,
            rbx: regs.rbx,
            rcx: regs.rcx,
            rdx: regs.rdx,
            rdi: regs.rdi,
            rsi: regs.rsi,
            rsp: regs.rsp,
            rbp: regs.rbp,
            r8: regs.r8,
            r9: regs.r9,
            r10: regs.r10,
            r11: regs.r11,
            r12: regs.r12,
            r13: regs.r13,
            r14: regs.r14,
            r15: regs.r15,
            rip: regs.rip,
            rflags: regs.rflags,
            xmm: [0u128;16],
            mxcsr: 0,
        }
    }
}

} // verus!
