//! Secure buffers and multi-pass erasure.
//!
//! A `SecureMemoryBlock` holds bytes that may carry plaintext or key
//! material. Erasure overwrites them with zeros, then ones, then random
//! bytes, then zeros again, with an optimization fence after each pass so
//! the writes cannot be elided. Pinning the pages against swap-out is a
//! platform capability the caller supplies the outcome of; failing to pin
//! downgrades capability and is never fatal.

use vstd::prelude::*;
use vstd::string::StringExecFns;
use zeroize::Zeroize;

verus! {

/// Ways a memory operation can fail.
#[derive(Debug)]
pub enum MemoryError {
    /// The platform refused to pin the buffer.
    LockFailed(String),
    /// The platform refused to unpin the buffer.
    UnlockFailed(String),
    /// The buffer could not be allocated.
    AllocationFailed,
    /// The buffer is not backed by memory.
    InvalidAddress,
    /// The platform does not support the operation.
    UnsupportedOperation,
}

impl MemoryError {
    /// A short description of the failure.
    pub fn message(&self) -> (r: &'static str)
        ensures
            r@.len() > 0,
    {
        let r = match self {
            MemoryError::LockFailed(_) => "memory locking failed",
            MemoryError::UnlockFailed(_) => "memory unlocking failed",
            MemoryError::AllocationFailed => "memory allocation failed",
            MemoryError::InvalidAddress => "invalid memory address",
            MemoryError::UnsupportedOperation => "operation not supported",
        };
        proof {
            reveal_strlit("memory locking failed");
            reveal_strlit("memory unlocking failed");
            reveal_strlit("memory allocation failed");
            reveal_strlit("invalid memory address");
            reveal_strlit("operation not supported");
        }
        r
    }
}

/// Relies on `rand::fill` (the thread-local cryptographic random number
/// generator): every byte is overwritten with random data and the length is
/// unchanged. Nothing is assumed of the values.
#[verifier::external_body]
fn fill_random(buf: &mut Vec<u8>)
    ensures
        final(buf)@.len() == old(buf)@.len(),
{
    rand::fill(buf.as_mut_slice());
}

/// Relies on std's `core::sync::atomic::compiler_fence` with sequentially
/// consistent ordering: the erasure passes before it cannot be reordered or
/// elided across it.
#[verifier::external_body]
fn erase_fence() {
    core::sync::atomic::compiler_fence(core::sync::atomic::Ordering::SeqCst);
}

/// A byte buffer with the secure-erasure and pinning discipline.
pub struct SecureMemoryBlock {
    data: Vec<u8>,
    locked: bool,
}

impl SecureMemoryBlock {
    /// The bytes the block holds.
    pub closed spec fn spec_data(&self) -> Seq<u8> {
        self.data@
    }

    /// Whether the block is pinned against swap-out.
    pub closed spec fn spec_locked(&self) -> bool {
        self.locked
    }

    /// Allocate a zeroed block. Fails exactly on an empty request.
    pub fn allocate(size: usize) -> (r: Result<SecureMemoryBlock, MemoryError>)
        ensures
            r is Ok <==> size > 0,
            r is Ok ==> r->Ok_0.spec_data() == Seq::new(size as nat, |i: int| 0u8)
                && !r->Ok_0.spec_locked(),
            r is Err ==> r->Err_0 is AllocationFailed,
    {
        if size == 0 {
            return Err(MemoryError::AllocationFailed);
        }
        let mut data: Vec<u8> = Vec::new();
        let mut i: usize = 0;
        while i < size
            invariant
                i <= size,
                data@ =~= Seq::new(i as nat, |j: int| 0u8),
            decreases size - i,
        {
            data.push(0);
            proof {
                assert(data@ =~= Seq::new((i + 1) as nat, |j: int| 0u8));
            }
            i = i + 1;
        }
        Ok(SecureMemoryBlock { data, locked: false })
    }

    /// Pin the block, given the platform's answer for this buffer. Pinning
    /// an already pinned block is a no-op; a platform refusal is an error
    /// and leaves the block unpinned.
    pub fn lock(&mut self, platform_ok: bool) -> (r: Result<(), MemoryError>)
        ensures
            final(self).spec_data() == old(self).spec_data(),
            old(self).spec_locked() ==> r is Ok && final(self).spec_locked(),
            !old(self).spec_locked() && platform_ok ==> r is Ok && final(self).spec_locked(),
            !old(self).spec_locked() && !platform_ok ==> r is Err && r->Err_0 is LockFailed
                && !final(self).spec_locked(),
    {
        if self.locked {
            return Ok(());
        }
        if platform_ok {
            self.locked = true;
            Ok(())
        } else {
            Err(MemoryError::LockFailed("the platform refused to pin the buffer".to_owned()))
        }
    }

    /// Unpin the block, given the platform's answer. Unpinning an unpinned
    /// block is a no-op; a platform refusal leaves the block pinned.
    pub fn unlock(&mut self, platform_ok: bool) -> (r: Result<(), MemoryError>)
        ensures
            final(self).spec_data() == old(self).spec_data(),
            !old(self).spec_locked() ==> r is Ok && !final(self).spec_locked(),
            old(self).spec_locked() && platform_ok ==> r is Ok && !final(self).spec_locked(),
            old(self).spec_locked() && !platform_ok ==> r is Err && r->Err_0 is UnlockFailed
                && final(self).spec_locked(),
    {
        if !self.locked {
            return Ok(());
        }
        if platform_ok {
            self.locked = false;
            Ok(())
        } else {
            Err(MemoryError::UnlockFailed("the platform refused to unpin the buffer".to_owned()))
        }
    }

    /// One byte of the block.
    pub fn get(&self, i: usize) -> (r: u8)
        requires
            i < self.spec_data().len(),
        ensures
            r == self.spec_data()[i as int],
    {
        self.data[i]
    }

    /// Overwrite one byte of the block.
    pub fn set(&mut self, i: usize, value: u8)
        requires
            i < old(self).spec_data().len(),
        ensures
            final(self).spec_data() == old(self).spec_data().update(i as int, value),
            final(self).spec_locked() == old(self).spec_locked(),
    {
        self.data.set(i, value);
    }

    /// The block's bytes as a slice.
    pub fn as_slice(&self) -> (r: &[u8])
        ensures
            r@ == self.spec_data(),
    {
        self.data.as_slice()
    }

    /// Overwrite every byte of the block with one value, behind a fence.
    fn overwrite_pass(&mut self, value: u8)
        ensures
            final(self).spec_data() == Seq::new(old(self).spec_data().len(), |i: int| value),
            final(self).spec_locked() == old(self).spec_locked(),
    {
        let mut i: usize = 0;
        let n = self.data.len();
        while i < n
            invariant
                i <= n,
                n == self.data@.len(),
                self.locked == old(self).spec_locked(),
                forall|j: int| 0 <= j < i ==> self.data@[j] == value,
                forall|j: int|
                    i <= j < n ==> self.data@[j] == old(self).spec_data()[j],
            decreases n - i,
        {
            self.data.set(i, value);
            i = i + 1;
        }
        proof {
            assert(self.data@ =~= Seq::new(old(self).spec_data().len(), |i: int| value));
        }
        erase_fence();
    }

    /// Erase the block: zeros, then ones, then random bytes, then zeros
    /// again, each pass behind a fence. The block ends all zeros.
    pub fn secure_erase(&mut self)
        ensures
            final(self).spec_data() == Seq::new(old(self).spec_data().len(), |i: int| 0u8),
            final(self).spec_locked() == old(self).spec_locked(),
    {
        let ghost n = self.data@.len();
        self.overwrite_pass(0);
        self.overwrite_pass(255);
        let ghost locked_before = self.locked;
        fill_random(&mut self.data);
        proof {
            assert(self.locked == locked_before);
        }
        erase_fence();
        self.overwrite_pass(0);
    }

    /// The block's size in bytes.
    pub fn size(&self) -> (r: usize)
        ensures
            r == self.spec_data().len(),
    {
        self.data.len()
    }

    /// Whether the block is pinned against swap-out.
    pub fn is_locked(&self) -> (r: bool)
        ensures
            r == self.spec_locked(),
    {
        self.locked
    }
}

/// Memory capability facts, as probed by the surrounding program.
#[derive(Debug, Clone)]
pub struct MemoryStats {
    /// The platform's page size, in bytes.
    pub page_size: usize,
    /// Whether the platform pins buffers for this process.
    pub supports_locking: bool,
}

/// Process-wide memory hygiene.
pub struct SecureMemory;

impl SecureMemory {
    /// Scrub a scratch region of the stack: fill it with random bytes, then
    /// zero it, behind fences, to overwrite residue recent calls left.
    pub fn secure_zero_memory() {
        let mut scratch: Vec<u8> = Vec::new();
        let mut i: usize = 0;
        while i < 4096
            invariant
                i <= 4096,
            decreases 4096 - i,
        {
            scratch.push(0);
            i = i + 1;
        }
        fill_random(&mut scratch);
        erase_fence();
        let mut j: usize = 0;
        let n = scratch.len();
        while j < n
            invariant
                j <= n,
                n == scratch@.len(),
            decreases n - j,
        {
            scratch.set(j, 0);
            j = j + 1;
        }
        erase_fence();
    }
}

/// A string that carries sensitive text.
pub struct SecureString {
    data: String,
}

impl Drop for SecureString {
    /// Relies on `zeroize::Zeroize` for `String`: the text self-wipes on
    /// destruction, whatever the exit path.
    #[verifier::external_body]
    fn drop(&mut self)
        opens_invariants none
        no_unwind
    {
        self.data.zeroize();
    }
}

impl View for SecureString {
    type V = Seq<char>;

    closed spec fn view(&self) -> Seq<char> {
        self.data@
    }
}

impl SecureString {
    /// Wrap an owned string.
    pub fn new(s: String) -> (r: SecureString)
        ensures
            r@ == s@,
    {
        SecureString { data: s }
    }

    /// Copy a string slice into a secure string.
    pub fn from_str(s: &str) -> (r: SecureString)
        ensures
            r@ == s@,
    {
        SecureString { data: s.to_owned() }
    }

    /// The text itself.
    pub fn as_str(&self) -> (r: &str)
        ensures
            r@ == self@,
    {
        self.data.as_str()
    }

    /// The text's length in bytes.
    pub fn len(&self) -> (r: usize)
        ensures
            r == vstd::utf8::encode_utf8(self@).len() as usize,
    {
        self.data.as_str().len()
    }

    /// Whether the text is empty.
    pub fn is_empty(&self) -> (r: bool)
        ensures
            r == (self@.len() == 0),
    {
        self.data.as_str().is_empty()
    }

    /// A masked description that shows only the byte length, never the
    /// text, safe to print.
    pub fn display_text(&self) -> (r: String)
        ensures
            r@ == "[SECURE_STRING:"@ + crate::timer::dec_str(
                vstd::utf8::encode_utf8(self@).len() as usize as int,
            ) + "bytes]"@,
    {
        let mut r = "[SECURE_STRING:".to_owned();
        crate::timer::push_decimal(&mut r, self.len() as u64);
        r.append("bytes]");
        r
    }
}

} // verus!
