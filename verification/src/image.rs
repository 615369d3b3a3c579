//! The bytes of a compiled function: its constant pool, and behind it its
//! instructions. The function is entered behind the pool; an instruction
//! reaches a pool entry, and a jump its target, by a displacement from its
//! own end.

use crate::dseg::{DSeg, DSegEntry, DSegValue, DSegView};
use crate::encode::{encodable, put, put32, put64, size, spec_encodable, spec_encode, spec_le32,
    spec_le64, spec_size};
use crate::error::GenError;
use crate::masm::{Insn, MacroAssembler, MasmView};
use crate::runtime::{CodeData, Runtime, RuntimeView};
use vstd::prelude::*;

verus! {

/// Largest number of bytes of a function, pool and instructions together.
pub const IMAGE_LIMIT: usize = 0x7fff_ffff;

/// Number of bytes that the first `n` instructions take: the place of
/// instruction `n`, counted from the first.
pub open spec fn spec_offset(insns: Seq<Insn>, n: int) -> int
    decreases n,
{
    if n <= 0 {
        0
    } else {
        spec_offset(insns, n - 1) + spec_size(insns[n - 1])
    }
}

/// Number of bytes that the instructions take.
pub open spec fn spec_code_size(insns: Seq<Insn>) -> int {
    spec_offset(insns, insns.len() as int)
}

/// Instructions lie one behind the other: a later one has the greater place,
/// by at least a byte and at most twelve for each instruction between.
pub proof fn lemma_offset_grows(insns: Seq<Insn>, a: int, b: int)
    requires
        0 <= a <= b,
    ensures
        spec_offset(insns, a) + (b - a) <= spec_offset(insns, b) <= spec_offset(insns, a) + 12 * (b
            - a),
    decreases b - a,
{
    if a < b {
        lemma_offset_grows(insns, a, b - 1);
    }
}

/// The place of an instruction does not depend on what follows it.
pub proof fn lemma_offset_prefix(a: Seq<Insn>, b: Seq<Insn>, n: int)
    requires
        0 <= n <= a.len() <= b.len(),
        forall|i: int| 0 <= i < a.len() ==> a[i] == b[i],
    ensures
        spec_offset(a, n) == spec_offset(b, n),
    decreases n,
{
    if n > 0 {
        lemma_offset_prefix(a, b, n - 1);
    }
}

/// The places of the instructions of `m`, with the place behind the last
/// as the last entry; `None` if the instructions take more than
/// `IMAGE_LIMIT` bytes.
pub fn offsets(m: &MacroAssembler) -> (r: Option<Vec<usize>>)
    ensures
        match r {
            Some(t) => {
                &&& spec_code_size(m@.insns) <= IMAGE_LIMIT
                &&& t@.len() == m@.insns.len() + 1
                &&& forall|i: int| 0 <= i <= m@.insns.len() ==> t@[i] == spec_offset(m@.insns, i)
            },
            None => spec_code_size(m@.insns) > IMAGE_LIMIT,
        },
{
    let n = m.len();
    let mut t: Vec<usize> = Vec::new();
    let mut at: usize = 0;
    t.push(at);
    let mut i: usize = 0;
    while i < n
        invariant
            n == m@.insns.len(),
            i <= n,
            at == spec_offset(m@.insns, i as int),
            at <= IMAGE_LIMIT,
            t@.len() == i + 1,
            forall|k: int| 0 <= k <= i ==> t@[k] == spec_offset(m@.insns, k),
        decreases n - i,
    {
        let width = size(m.insn(i));
        if width > IMAGE_LIMIT - at {
            proof {
                lemma_offset_grows(m@.insns, i + 1, n as int);
            }
            return None;
        }
        at = at + width;
        t.push(at);
        i += 1;
    }
    Some(t)
}

/// Number of bytes that the instructions of `m` take; `None` if they are
/// more than `IMAGE_LIMIT`.
pub fn code_size(m: &MacroAssembler) -> (r: Option<usize>)
    ensures
        match r {
            Some(n) => n == spec_code_size(m@.insns) && n <= IMAGE_LIMIT,
            None => spec_code_size(m@.insns) > IMAGE_LIMIT,
        },
{
    match offsets(m) {
        Some(t) => Some(t[m.len()]),
        None => None,
    }
}

/// Number of bytes of a function's image.
pub open spec fn spec_image_size(v: MasmView) -> int {
    v.dseg.size + spec_code_size(v.insns)
}

/// Whether a function's image can be placed: its pool has a size, and pool
/// and instructions together are within `IMAGE_LIMIT`.
pub open spec fn spec_placeable(v: MasmView) -> bool {
    0 <= v.dseg.size && spec_image_size(v) <= IMAGE_LIMIT
}

/// Number of bytes of the image of `m`; `None` if the image cannot be
/// placed.
pub fn image_size(m: &MacroAssembler) -> (r: Option<usize>)
    ensures
        match r {
            Some(n) => spec_placeable(m@) && n == spec_image_size(m@),
            None => !spec_placeable(m@),
        },
{
    let pool = m.dseg().size();
    if pool < 0 {
        return None;
    }
    match code_size(m) {
        Some(code) => if pool as usize <= IMAGE_LIMIT - code {
            Some(pool as usize + code)
        } else {
            None
        },
        None => None,
    }
}

/// The shared state after the image of the finished listing `v` takes the
/// next free addresses of the code space and is registered as `data`, and
/// the address at which the code is entered: the one behind the pool.
pub open spec fn spec_place(rt: RuntimeView, v: MasmView, data: CodeData) -> Result<
    (RuntimeView, u64),
    GenError,
> {
    if !spec_placeable(v) {
        Err(GenError::TooLarge)
    } else {
        match rt.install(spec_image_size(v), data) {
            None => Err(GenError::OutOfMemory),
            Some((rt1, start)) => Ok((rt1, (start + v.dseg.size) as u64)),
        }
    }
}

/// Takes the next free addresses of the code space for the image of `m`
/// and registers them as `data`. Returns the address at which the code is
/// entered.
pub fn place(rt: &mut Runtime, m: &MacroAssembler, data: CodeData) -> (r: Result<u64, GenError>)
    requires
        old(rt).wf(),
        m@.insns.len() > 0,
    ensures
        final(rt).wf(),
        match spec_place(old(rt)@, m@, data) {
            Ok((view, entry)) => {
                &&& r == Ok::<u64, GenError>(entry)
                &&& final(rt)@ == view
                &&& entry >= m@.dseg.size
                &&& entry + spec_code_size(m@.insns) <= u64::MAX
            },
            Err(e) => r == Err::<u64, GenError>(e) && final(rt)@ == old(rt)@,
        },
{
    let len = match image_size(m) {
        Some(len) => len,
        None => return Err(GenError::TooLarge),
    };
    proof {
        lemma_offset_grows(m@.insns, 0, m@.insns.len() as int);
    }
    match rt.install(len, data) {
        Some(start) => Ok(start + m.dseg().size() as u64),
        None => Err(GenError::OutOfMemory),
    }
}

/// The bytes of a pool entry's value.
pub open spec fn spec_value_bytes(value: DSegValue) -> Seq<u8> {
    match value {
        DSegValue::Ptr(p) => spec_le64(p),
        DSegValue::Float(bits) => spec_le32(bits),
        DSegValue::Double(bits) => spec_le64(bits),
    }
}

/// `image` with `bytes` at index `at`. Bytes that would not lie within the
/// image are not written.
pub open spec fn spec_write(image: Seq<u8>, at: int, bytes: Seq<u8>) -> Seq<u8> {
    if 0 <= at && at + bytes.len() <= image.len() {
        image.take(at) + bytes + image.skip(at + bytes.len())
    } else {
        image
    }
}

/// The pool's bytes once its first `n` entries are written: an entry lies
/// as far before the pool's end as its displacement says, and the bytes
/// between entries are zero.
pub open spec fn spec_pool(d: DSegView, n: int) -> Seq<u8>
    decreases n,
{
    if n <= 0 || n > d.entries.len() {
        Seq::new(
            if d.size >= 0 {
                d.size as nat
            } else {
                0
            },
            |i: int| 0u8,
        )
    } else {
        spec_write(
            spec_pool(d, n - 1),
            d.size - d.entries[n - 1].disp,
            spec_value_bytes(d.entries[n - 1].value),
        )
    }
}

/// The pool has as many bytes as its size says.
pub proof fn lemma_pool_len(d: DSegView, n: int)
    requires
        0 <= d.size,
    ensures
        spec_pool(d, n).len() == d.size,
    decreases n,
{
    if !(n <= 0 || n > d.entries.len()) {
        lemma_pool_len(d, n - 1);
    }
}

/// The bytes of `value`.
fn value_bytes(value: DSegValue) -> (r: Vec<u8>)
    ensures
        r@ == spec_value_bytes(value),
{
    let mut r: Vec<u8> = Vec::new();
    match value {
        DSegValue::Ptr(p) => put64(&mut r, p),
        DSegValue::Float(bits) => put32(&mut r, bits),
        DSegValue::Double(bits) => put64(&mut r, bits),
    }
    assert(r@ =~= spec_value_bytes(value));
    r
}

/// Writes `bytes` into `image` at index `at`, if they lie within it.
fn write(image: &mut Vec<u8>, at: i64, bytes: &Vec<u8>)
    ensures
        final(image)@ == spec_write(old(image)@, at as int, bytes@),
{
    if at < 0 || bytes.len() > image.len() || at as u64 > (image.len() - bytes.len()) as u64 {
        return ;
    }
    let start = at as usize;
    let mut k: usize = 0;
    while k < bytes.len()
        invariant
            k <= bytes@.len(),
            start + bytes@.len() <= image@.len() <= usize::MAX,
            image@.len() == old(image)@.len(),
            forall|j: int| 0 <= j < start ==> image@[j] == old(image)@[j],
            forall|j: int| start <= j < start + k ==> image@[j] == bytes@[j - start],
            forall|j: int| start + k <= j < image@.len() ==> image@[j] == old(image)@[j],
        decreases bytes@.len() - k,
    {
        image.set(start + k, bytes[k]);
        k += 1;
    }
    assert(image@ =~= spec_write(old(image)@, at as int, bytes@));
}

/// The bytes of the pool `d`.
pub fn pool_bytes(d: &DSeg) -> (r: Vec<u8>)
    ensures
        r@ == spec_pool(d@, d@.entries.len() as int),
{
    let size = d.size();
    let mut image: Vec<u8> = Vec::new();
    let mut i: i32 = 0;
    while i < size
        invariant
            0 <= i,
            i <= size || i == 0,
            image@.len() == i,
            forall|j: int| 0 <= j < i ==> image@[j] == 0u8,
        decreases size - i,
    {
        image.push(0);
        i += 1;
    }
    assert(image@ =~= spec_pool(d@, 0));
    let n = d.len();
    let mut k: usize = 0;
    while k < n
        invariant
            n == d@.entries.len(),
            size == d@.size,
            k <= n,
            image@ == spec_pool(d@, k as int),
        decreases n - k,
    {
        let entry = d.entry(k);
        let bytes = value_bytes(entry.value);
        write(&mut image, size as i64 - entry.disp as i64, &bytes);
        k += 1;
    }
    image
}

/// The displacement that instruction `i` holds, counted from its end: for
/// a jump, to the place of the position that its label is bound to; for a
/// load from the pool, back to the entry. Other instructions hold none.
pub open spec fn spec_rel(v: MasmView, i: int) -> int {
    match v.insns[i] {
        Insn::Jump(l) => spec_jump_rel(v, i, l.0 as int),
        Insn::JumpIf(_, l) => spec_jump_rel(v, i, l.0 as int),
        Insn::LoadConstPool(_, at) => -(at - i) - spec_offset(v.insns, i + 1),
        Insn::LoadFloatConst(_, _, at) => -(at - i) - spec_offset(v.insns, i + 1),
        _ => 0,
    }
}

/// The displacement of the jump at position `i` to label `l`.
pub open spec fn spec_jump_rel(v: MasmView, i: int, l: int) -> int {
    if 0 <= l < v.labels.len() {
        match v.labels[l] {
            Some(p) => spec_offset(v.insns, p as int) - spec_offset(v.insns, i + 1),
            None => 0,
        }
    } else {
        0
    }
}

/// Whether instruction `i` can be encoded where it stands: it can be
/// encoded, and its displacement fits the 32 bits it has.
pub open spec fn spec_fits(v: MasmView, i: int) -> bool {
    spec_encodable(v.insns[i]) && i32::MIN <= spec_rel(v, i) <= i32::MAX
}

/// Where every jump is bound to a position of the listing and the code is
/// within the limit, the displacement of a jump fits the 32 bits it has: it
/// leads from the end of the jump to a place within the code or directly
/// behind it.
pub proof fn lemma_jumps_fit(v: MasmView, i: int)
    requires
        v.all_bound(),
        spec_code_size(v.insns) <= IMAGE_LIMIT,
        0 <= i < v.insns.len(),
        v.insns[i].target() is Some,
    ensures
        i32::MIN <= spec_rel(v, i) <= i32::MAX,
        0 <= spec_offset(v.insns, i + 1) + spec_rel(v, i) <= spec_code_size(v.insns),
{
    let l = v.insns[i].target()->0;
    let p = v.labels[l.0 as int]->0;
    lemma_offset_grows(v.insns, 0, i + 1);
    lemma_offset_grows(v.insns, i + 1, v.insns.len() as int);
    lemma_offset_grows(v.insns, 0, p as int);
    lemma_offset_grows(v.insns, p as int, v.insns.len() as int);
}

/// The bytes of the first `n` instructions.
pub open spec fn spec_code(v: MasmView, n: int) -> Seq<u8>
    decreases n,
{
    if n <= 0 {
        Seq::empty()
    } else {
        spec_code(v, n - 1) + spec_encode(v.insns[n - 1], spec_rel(v, n - 1) as i32)
    }
}

/// The code has as many bytes as the sizes of its instructions say.
pub proof fn lemma_code_len(v: MasmView, n: int)
    requires
        0 <= n,
    ensures
        spec_code(v, n).len() == spec_offset(v.insns, n),
    decreases n,
{
    if n > 0 {
        lemma_code_len(v, n - 1);
        crate::encode::lemma_size(v.insns[n - 1], spec_rel(v, n - 1) as i32);
    }
}

/// The image of a finished listing: the pool, then the instructions.
/// `None` if the image cannot be placed or an instruction cannot be
/// encoded where it stands.
pub open spec fn spec_image(v: MasmView) -> Option<Seq<u8>> {
    if spec_placeable(v) && forall|i: int| 0 <= i < v.insns.len() ==> spec_fits(v, i) {
        Some(spec_pool(v.dseg, v.dseg.entries.len() as int) + spec_code(v, v.insns.len() as int))
    } else {
        None
    }
}

/// The image has the size by which it is placed, and the code starts
/// behind the pool.
pub proof fn lemma_image_len(v: MasmView)
    requires
        spec_image(v) is Some,
    ensures
        spec_image(v)->0.len() == spec_image_size(v),
        spec_image(v)->0.take(v.dseg.size as int) == spec_pool(v.dseg, v.dseg.entries.len() as int),
        spec_image(v)->0.skip(v.dseg.size as int) == spec_code(v, v.insns.len() as int),
{
    lemma_pool_len(v.dseg, v.dseg.entries.len() as int);
    lemma_code_len(v, v.insns.len() as int);
    let pool = spec_pool(v.dseg, v.dseg.entries.len() as int);
    let code = spec_code(v, v.insns.len() as int);
    assert((pool + code).take(v.dseg.size as int) =~= pool);
    assert((pool + code).skip(v.dseg.size as int) =~= code);
}

/// The displacement that instruction `i` of `m` holds; `None` if it does
/// not fit 32 bits. `t` holds the places of the instructions.
fn rel(m: &MacroAssembler, t: &Vec<usize>, i: usize) -> (r: Option<i32>)
    requires
        i < m@.insns.len(),
        m@.all_bound(),
        spec_code_size(m@.insns) <= IMAGE_LIMIT,
        t@.len() == m@.insns.len() + 1,
        forall|k: int| 0 <= k <= m@.insns.len() ==> t@[k] == spec_offset(m@.insns, k),
    ensures
        match r {
            Some(x) => x == spec_rel(m@, i as int),
            None => !(i32::MIN <= spec_rel(m@, i as int) <= i32::MAX),
        },
{
    proof {
        lemma_offset_grows(m@.insns, 0, i as int + 1);
        lemma_offset_grows(m@.insns, i as int + 1, m@.insns.len() as int);
    }
    let end = t[i + 1] as i64;
    let insn = m.insn(i);
    let x: i64 = match insn {
        Insn::Jump(l) | Insn::JumpIf(_, l) => {
            assert(m@.insns[i as int].target() == Some(l));
            match m.label_pos(l) {
                Some(p) => {
                    proof {
                        lemma_offset_grows(m@.insns, 0, p as int);
                        lemma_offset_grows(m@.insns, p as int, m@.insns.len() as int);
                    }
                    t[p] as i64 - end
                },
                None => 0,
            }
        },
        Insn::LoadConstPool(_, at) | Insn::LoadFloatConst(_, _, at) => -(at as i64 - i as i64) - end,
        _ => 0,
    };
    if x < i32::MIN as i64 || x > i32::MAX as i64 {
        None
    } else {
        Some(x as i32)
    }
}

/// The image of the finished listing `m`, to be written where the listing
/// was placed; `None` if the image cannot be placed or an instruction
/// cannot be encoded where it stands.
pub fn assemble(m: &MacroAssembler) -> (r: Option<Vec<u8>>)
    requires
        m@.all_bound(),
    ensures
        match spec_image(m@) {
            Some(image) => r matches Some(bytes) && bytes@ == image,
            None => r is None,
        },
{
    if m.dseg().size() < 0 {
        return None;
    }
    let t = match offsets(m) {
        Some(t) => t,
        None => return None,
    };
    let n = m.len();
    if m.dseg().size() as usize > IMAGE_LIMIT - t[n] {
        return None;
    }
    let mut image = pool_bytes(m.dseg());
    let ghost pool = image@;
    let mut i: usize = 0;
    while i < n
        invariant
            n == m@.insns.len(),
            i <= n,
            m@.all_bound(),
            spec_placeable(m@),
            spec_code_size(m@.insns) <= IMAGE_LIMIT,
            t@.len() == n + 1,
            forall|k: int| 0 <= k <= n ==> t@[k] == spec_offset(m@.insns, k),
            forall|k: int| 0 <= k < i ==> spec_fits(m@, k),
            image@ == pool + spec_code(m@, i as int),
            pool == spec_pool(m@.dseg, m@.dseg.entries.len() as int),
        decreases n - i,
    {
        let insn = m.insn(i);
        if !encodable(insn) {
            assert(!spec_fits(m@, i as int));
            return None;
        }
        let x = match rel(m, &t, i) {
            Some(x) => x,
            None => {
                assert(!spec_fits(m@, i as int));
                return None;
            },
        };
        put(&mut image, insn, x);
        assert(image@ =~= pool + spec_code(m@, i + 1));
        i += 1;
    }
    Some(image)
}

} // verus!
