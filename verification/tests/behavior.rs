use partial_apply::{invoke_chained, invoke_exclusive, invoke_owned, invoke_shared, PartiallyApply};

fn digits(this: u64, rest: &[u64]) -> u64 {
    let mut acc = this;
    for d in rest {
        acc = acc * 10 + d;
    }
    acc
}

fn join0(this: u64) -> u64 {
    digits(this, &[])
}

fn join1(this: u64, a0: u64) -> u64 {
    digits(this, &[a0])
}

fn join2(this: u64, a0: u64, a1: u64) -> u64 {
    digits(this, &[a0, a1])
}

fn join3(this: u64, a0: u64, a1: u64, a2: u64) -> u64 {
    digits(this, &[a0, a1, a2])
}

fn join4(this: u64, a0: u64, a1: u64, a2: u64, a3: u64) -> u64 {
    digits(this, &[a0, a1, a2, a3])
}

fn join5(this: u64, a0: u64, a1: u64, a2: u64, a3: u64, a4: u64) -> u64 {
    digits(this, &[a0, a1, a2, a3, a4])
}

fn join6(this: u64, a0: u64, a1: u64, a2: u64, a3: u64, a4: u64, a5: u64) -> u64 {
    digits(this, &[a0, a1, a2, a3, a4, a5])
}

fn join7(this: u64, a0: u64, a1: u64, a2: u64, a3: u64, a4: u64, a5: u64, a6: u64) -> u64 {
    digits(this, &[a0, a1, a2, a3, a4, a5, a6])
}

fn join8(this: u64, a0: u64, a1: u64, a2: u64, a3: u64, a4: u64, a5: u64, a6: u64, a7: u64) -> u64 {
    digits(this, &[a0, a1, a2, a3, a4, a5, a6, a7])
}

fn join9(
    this: u64,
    a0: u64,
    a1: u64,
    a2: u64,
    a3: u64,
    a4: u64,
    a5: u64,
    a6: u64,
    a7: u64,
    a8: u64,
) -> u64 {
    digits(this, &[a0, a1, a2, a3, a4, a5, a6, a7, a8])
}

fn join10(
    this: u64,
    a0: u64,
    a1: u64,
    a2: u64,
    a3: u64,
    a4: u64,
    a5: u64,
    a6: u64,
    a7: u64,
    a8: u64,
    a9: u64,
) -> u64 {
    digits(this, &[a0, a1, a2, a3, a4, a5, a6, a7, a8, a9])
}

fn join11(
    this: u64,
    a0: u64,
    a1: u64,
    a2: u64,
    a3: u64,
    a4: u64,
    a5: u64,
    a6: u64,
    a7: u64,
    a8: u64,
    a9: u64,
    a10: u64,
) -> u64 {
    digits(this, &[a0, a1, a2, a3, a4, a5, a6, a7, a8, a9, a10])
}

fn join12(
    this: u64,
    a0: u64,
    a1: u64,
    a2: u64,
    a3: u64,
    a4: u64,
    a5: u64,
    a6: u64,
    a7: u64,
    a8: u64,
    a9: u64,
    a10: u64,
    a11: u64,
) -> u64 {
    digits(this, &[a0, a1, a2, a3, a4, a5, a6, a7, a8, a9, a10, a11])
}

#[test]
fn arity_0_round_trips() {
    assert_eq!(7u64.apply(join0).pass(), 7);
}

#[test]
fn arity_1_round_trips() {
    assert_eq!(7u64.apply(join1).pass(1), 71);
}

#[test]
fn arity_2_round_trips() {
    assert_eq!(7u64.apply(join2).pass(1, 2), 712);
}

#[test]
fn arity_3_round_trips() {
    assert_eq!(7u64.apply(join3).pass(1, 2, 3), 7123);
}

#[test]
fn arity_4_round_trips() {
    assert_eq!(7u64.apply(join4).pass(1, 2, 3, 4), 71234);
}

#[test]
fn arity_5_round_trips() {
    assert_eq!(7u64.apply(join5).pass(1, 2, 3, 4, 5), 712345);
}

#[test]
fn arity_6_round_trips() {
    assert_eq!(7u64.apply(join6).pass(1, 2, 3, 4, 5, 6), 7123456);
}

#[test]
fn arity_7_round_trips() {
    assert_eq!(7u64.apply(join7).pass(1, 2, 3, 4, 5, 6, 7), 71234567);
}

#[test]
fn arity_8_round_trips() {
    assert_eq!(7u64.apply(join8).pass(1, 2, 3, 4, 5, 6, 7, 8), 712345678);
}

#[test]
fn arity_9_round_trips() {
    assert_eq!(7u64.apply(join9).pass(1, 2, 3, 4, 5, 6, 7, 8, 9), 7123456789);
}

#[test]
fn arity_10_round_trips() {
    assert_eq!(7u64.apply(join10).pass(1, 2, 3, 4, 5, 6, 7, 8, 9, 0), 71234567890);
}

#[test]
fn arity_11_round_trips() {
    assert_eq!(7u64.apply(join11).pass(1, 2, 3, 4, 5, 6, 7, 8, 9, 0, 1), 712345678901);
}

#[test]
fn arity_12_round_trips() {
    assert_eq!(7u64.apply(join12).pass(1, 2, 3, 4, 5, 6, 7, 8, 9, 0, 1, 2), 7123456789012);
}

fn option_as_slice(this: &Option<i32>) -> &[i32] {
    this.as_ref().map(core::slice::from_ref).unwrap_or(&[])
}

fn slice_get(this: &[i32], index: usize) -> i32 {
    this[index]
}

fn add_then_multiply(this: i32, addend: i32, factor: i32) -> i32 {
    (this + addend) * factor
}

#[test]
fn shared_capture_yields_slice_and_leaves_receiver() {
    let r0 = Some(0);
    let s = r0.apply_ref(option_as_slice).pass();
    assert_eq!(s, &[0]);
    assert_eq!(r0, Some(0));
}

#[test]
fn owned_capture_gets_element() {
    let s: &[i32] = &[0];
    let v = s.apply(slice_get).pass(0);
    assert_eq!(v, 0);
}

#[test]
fn owned_capture_add_then_multiply() {
    let result = 0.apply(add_then_multiply).pass(2, 2);
    assert_eq!(result, 4);
}

#[test]
fn full_chain_from_some_zero() {
    let r0 = Some(0);
    let result = r0
        .apply_ref(option_as_slice)
        .pass()
        .apply(slice_get)
        .pass(0)
        .apply(add_then_multiply)
        .pass(2, 2);
    assert_eq!(result, 4);
    assert_eq!(r0, Some(0));
}

fn push_one(this: &mut Vec<i32>) {
    this.push(1);
}

#[test]
fn exclusive_capture_mutation_is_visible() {
    let mut v: Vec<i32> = vec![0];
    v.apply_mut(push_one).pass();
    assert_eq!(v, vec![0, 1]);
}

#[test]
fn closure_extension_moves_capture() {
    let suffix = String::from("!");
    let greeting = String::from("hi").apply(move |this: String, n: usize| {
        let mut out = this;
        for _ in 0..n {
            out.push_str(&suffix);
        }
        out
    });
    assert_eq!(greeting.pass(3), "hi!!!");
}

fn double(this: u64) -> u64 {
    2 * this
}

fn read_copy(this: &u64) -> u64 {
    *this
}

fn bump(this: &mut u64) {
    *this += 1;
}

fn sum(this: u64, other: u64) -> u64 {
    this + other
}

#[test]
fn invoke_owned_matches_direct_call() {
    assert_eq!(invoke_owned(21u64, double), double(21));
}

#[test]
fn invoke_shared_matches_direct_call() {
    let v: u64 = 9;
    assert_eq!(invoke_shared(&v, read_copy), 9);
    assert_eq!(v, 9);
}

#[test]
fn invoke_exclusive_shows_mutation() {
    let mut v: u64 = 9;
    invoke_exclusive(&mut v, bump);
    assert_eq!(v, 10);
}

#[test]
fn invoke_chained_composes() {
    let r = invoke_chained(1u64, sum, 2u64, sum, 3u64);
    assert_eq!(r, sum(sum(1, 2), 3));
}
