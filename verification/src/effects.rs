use vstd::prelude::*;

verus! {

/// The delay that a ring buffer of `len` samples can give: at most `len - 1`.
pub open spec fn clamped_delay(delay_samples: nat, len: nat) -> nat {
    if delay_samples < len - 1 {
        delay_samples
    } else {
        (len - 1) as nat
    }
}

/// The slot of a ring buffer of `len` samples to read the sample from
/// `delay_samples` ago, when the next sample goes to `write_index`.
pub fn delay_read_index(write_index: usize, len: usize, delay_samples: usize) -> (read_index: usize)
    requires
        len > 0,
        write_index + len <= usize::MAX,
    ensures
        read_index == (write_index + len - clamped_delay(delay_samples as nat, len as nat)) % (
        len as int),
        read_index < len,
{
    let delay = if delay_samples < len - 1 {
        delay_samples
    } else {
        len - 1
    };
    (write_index + len - delay) % len
}

/// The slot after `write_index` in a ring buffer of `len` samples.
pub fn advance_write_index(write_index: usize, len: usize) -> (next: usize)
    requires
        len > 0,
        write_index < usize::MAX,
    ensures
        next == (write_index + 1) % (len as int),
        next < len,
{
    (write_index + 1) % len
}

/// Reading trails writing by exactly the clamped delay, around the ring.
pub proof fn law_read_trails_write(write_index: nat, len: nat, delay_samples: nat)
    requires
        len > 0,
        write_index < len,
    ensures
        ((write_index + len - clamped_delay(delay_samples, len)) % (len as int) + clamped_delay(
            delay_samples,
            len,
        )) % (len as int) == write_index,
{
    let d = clamped_delay(delay_samples, len);
    let x = write_index + len - d;
    assert(0 <= x < 2 * len);
    if x < len {
        assert(x % (len as int) == x) by (nonlinear_arith)
            requires
                0 <= x < len,
        ;
        assert((x + d) % (len as int) == write_index) by (nonlinear_arith)
            requires
                x + d == write_index + len,
                write_index < len,
                len > 0,
        ;
    } else {
        assert(x % (len as int) == x - len) by (nonlinear_arith)
            requires
                len <= x < 2 * len,
        ;
        assert((x - len + d) % (len as int) == write_index) by (nonlinear_arith)
            requires
                x - len + d == write_index,
                0 <= write_index < len,
        ;
    }
}

/// The write position after `steps` advances around a ring of `len` slots.
pub open spec fn advanced(write_index: int, len: int, steps: nat) -> int
    decreases steps,
{
    if steps == 0 {
        write_index
    } else {
        advanced((write_index + 1) % len, len, (steps - 1) as nat)
    }
}

/// The write position walks the whole ring: after `len` advances it is back.
pub proof fn law_write_index_cycles(write_index: int, len: nat)
    requires
        len > 0,
        0 <= write_index < len,
    ensures
        advanced(write_index, len as int, len) == write_index,
{
    lemma_advanced(write_index, len as int, len);
    assert((write_index + len) % (len as int) == write_index) by (nonlinear_arith)
        requires
            0 <= write_index < len,
    ;
}

/// `steps` advances move the write position `steps` slots around the ring.
proof fn lemma_advanced(write_index: int, len: int, steps: nat)
    requires
        len > 0,
        0 <= write_index < len,
    ensures
        advanced(write_index, len, steps) == (write_index + steps) % len,
    decreases steps,
{
    if steps > 0 {
        let next = (write_index + 1) % len;
        assert(0 <= next < len) by (nonlinear_arith)
            requires
                len > 0,
                next == (write_index + 1) % len,
        ;
        lemma_advanced(next, len, (steps - 1) as nat);
        vstd::arithmetic::div_mod::lemma_add_mod_noop(write_index + 1, steps - 1, len);
        vstd::arithmetic::div_mod::lemma_mod_twice(write_index + 1, len);
        vstd::arithmetic::div_mod::lemma_add_mod_noop(next, steps - 1, len);
    } else {
        assert(write_index % len == write_index) by (nonlinear_arith)
            requires
                0 <= write_index < len,
        ;
    }
}

} // verus!
