use fibonacci_prover::channels::GuestInput;
use fibonacci_prover::channels::PublicValues;
use fibonacci_prover::fib::fibonacci;
use fibonacci_prover::guest::run_guest;
use fibonacci_prover::guest::GuestFault;

#[test]
fn fibonacci_base_cases() {
    assert_eq!(fibonacci(0), 0);
    assert_eq!(fibonacci(1), 1);
    assert_eq!(fibonacci(2), 1);
    assert_eq!(fibonacci(3), 2);
}

#[test]
fn fibonacci_known_values() {
    assert_eq!(fibonacci(10), 55);
    assert_eq!(fibonacci(20), 6765);
    assert_eq!(fibonacci(50), 12586269025);
    assert_eq!(fibonacci(93), 12200160415121876738);
}

#[test]
fn fibonacci_wraps_on_overflow() {
    // F(94) exceeds 2^64; the documented policy is wraparound, not failure.
    let f92 = fibonacci(92);
    let f93 = fibonacci(93);
    assert_eq!(fibonacci(94), f92.wrapping_add(f93));
}

#[test]
fn guest_commits_index_then_value() {
    let mut input = GuestInput::new();
    input.write_u32(10);
    input.write_u64(55);
    let pv = run_guest(&mut input).expect("matching claim must complete");
    assert_eq!(pv.to_vec(), vec![10, 0, 0, 0, 55, 0, 0, 0, 0, 0, 0, 0]);
}

#[test]
fn guest_aborts_on_wrong_claim() {
    // The claimed value 999 differs from F(10) = 55: execution aborts and no
    // public values exist, so no proof is obtainable for this input.
    let mut input = GuestInput::new();
    input.write_u32(10);
    input.write_u64(999);
    assert_eq!(run_guest(&mut input), Err(GuestFault::Assertion));
}

#[test]
fn guest_aborts_on_empty_input() {
    let mut input = GuestInput::new();
    assert_eq!(run_guest(&mut input), Err(GuestFault::Input));
}

#[test]
fn guest_aborts_on_misordered_input() {
    // The guest reads a 32-bit index first; a 64-bit value there is a fatal
    // decoding fault.
    let mut input = GuestInput::new();
    input.write_u64(55);
    input.write_u32(10);
    assert_eq!(run_guest(&mut input), Err(GuestFault::Input));
}

#[test]
fn guest_aborts_on_missing_claim() {
    let mut input = GuestInput::new();
    input.write_u32(10);
    assert_eq!(run_guest(&mut input), Err(GuestFault::Input));
}

#[test]
fn input_reads_match_write_order() {
    let mut input = GuestInput::new();
    input.write_u32(7);
    input.write_u64(13);
    assert_eq!(input.read_u32(), Some(7));
    assert_eq!(input.read_u64(), Some(13));
    assert_eq!(input.read_u32(), None);
}

#[test]
fn input_read_of_wrong_type_fails() {
    let mut input = GuestInput::new();
    input.write_u32(7);
    assert_eq!(input.read_u64(), None);
}

#[test]
fn public_values_append_in_commit_order() {
    let mut pv = PublicValues::new();
    pv.commit_u32(1);
    pv.commit_u64(2);
    assert_eq!(pv.len(), 12);
    assert_eq!(pv.to_vec(), vec![1, 0, 0, 0, 2, 0, 0, 0, 0, 0, 0, 0]);
    assert_eq!(pv.byte_at(0), 1);
    let copy = pv.duplicate();
    assert_eq!(copy.to_vec(), pv.to_vec());
}

#[test]
fn public_values_little_endian_encoding() {
    let mut pv = PublicValues::new();
    pv.commit_u32(0x01020304);
    assert_eq!(pv.to_vec(), vec![4, 3, 2, 1]);
    let mut pw = PublicValues::new();
    pw.commit_u64(0x0102030405060708);
    assert_eq!(pw.to_vec(), vec![8, 7, 6, 5, 4, 3, 2, 1]);
}
