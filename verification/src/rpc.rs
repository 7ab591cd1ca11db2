//! Remote procedure calls: a function that a peer can call, and the byte
//! packages in which its arguments and its result travel, in bincode's
//! standard encoding.
use vstd::prelude::*;

use crate::error::BusError;

verus! {

#[verifier::external_type_specification]
#[verifier::external_body]
pub struct ExEncodeError(bincode::error::EncodeError);

/// bincode's zigzag mapping of a signed integer to an unsigned one:
/// `0, -1, 1, -2, 2, ...` map to `0, 1, 2, 3, 4, ...`.
pub open spec fn zigzag(v: i32) -> u32 {
    if v < 0 {
        (-2 * v - 1) as u32
    } else {
        (2 * v) as u32
    }
}

/// bincode's variable-length encoding of a `u32` in little-endian order:
/// one byte below 251; below 2^16 the byte 251 and two bytes; else the
/// byte 252 and four bytes.
pub open spec fn varint_u32(u: u32) -> Seq<u8> {
    if u <= 250 {
        seq![u as u8]
    } else if u <= 0xffff {
        seq![251u8, (u % 256) as u8, (u / 256) as u8]
    } else {
        seq![
            252u8,
            (u % 256) as u8,
            ((u / 256) % 256) as u8,
            ((u / 65536) % 256) as u8,
            (u / 16777216) as u8,
        ]
    }
}

/// The bytes of an `i32` in bincode's standard configuration.
pub open spec fn standard_i32(v: i32) -> Seq<u8> {
    varint_u32(zigzag(v))
}

/// The bytes of an `(i32, i32)` argument pair in bincode's standard
/// configuration: the two numbers one after the other.
pub open spec fn standard_i32_pair(args: (i32, i32)) -> Seq<u8> {
    standard_i32(args.0) + standard_i32(args.1)
}

/// `bincode::encode_to_vec` of an `(i32, i32)` pair with
/// `bincode::config::standard()`. The contract claims what bincode's
/// documentation and source show: little-endian variable-length integers
/// after the zigzag mapping, the tuple's fields in order, and no failure
/// (the vector writer never fails).
#[verifier::external_body]
fn encode_i32_pair(args: (i32, i32)) -> (r: Result<Vec<u8>, bincode::error::EncodeError>)
    ensures
        r is Ok,
        r.unwrap()@ == standard_i32_pair(args),
{
    bincode::encode_to_vec(args, bincode::config::standard())
}

/// `bincode::encode_to_vec` of one `i32` with `bincode::config::standard()`.
/// The contract claims the same encoding as for the pair, for one number,
/// and no failure.
#[verifier::external_body]
fn encode_i32(value: i32) -> (r: Result<Vec<u8>, bincode::error::EncodeError>)
    ensures
        r is Ok,
        r.unwrap()@ == standard_i32(value),
{
    bincode::encode_to_vec(value, bincode::config::standard())
}

/// A function that peers can call with arguments `X` and that returns `O`.
pub trait RpcFunction<X, O>: Sized {
    /// Whether `call` is defined on these arguments.
    spec fn accepts(&self, args: X) -> bool;

    /// What `call` returns on these arguments.
    spec fn result_of(&self, args: X) -> O;

    /// The bytes of a call package for these arguments.
    spec fn args_bytes(args: X) -> Seq<u8>;

    /// The bytes of a result package for this result.
    spec fn output_bytes(output: O) -> Seq<u8>;

    /// How arguments are read back from the front of a byte sequence: the
    /// arguments and the number of bytes taken.
    spec fn read_args(bytes: Seq<u8>) -> Option<(X, int)>;

    /// How a result is read back from the front of a byte sequence: the
    /// result and the number of bytes taken.
    spec fn read_output(bytes: Seq<u8>) -> Option<(O, int)>;

    /// The function.
    fn new() -> Self;

    /// Calls the function.
    fn call(&self, args: X) -> (r: O)
        requires
            self.accepts(args),
        ensures
            r == self.result_of(args),
    ;

    /// The name under which the function is called.
    fn name(&self) -> String;

    /// The bytes that carry the arguments of a call.
    fn call_package(args: X) -> (r: Result<Vec<u8>, BusError>)
        ensures
            r matches Ok(bytes) ==> bytes@ == Self::args_bytes(args),
    ;

    /// The bytes that carry the result of a call.
    fn return_package(output: O) -> (r: Result<Vec<u8>, BusError>)
        ensures
            r matches Ok(bytes) ==> bytes@ == Self::output_bytes(output),
    ;

    /// A call package reads back as its arguments and takes all its bytes.
    proof fn lemma_args_round_trip(args: X)
        ensures
            Self::read_args(Self::args_bytes(args)) == Some(
                (args, Self::args_bytes(args).len() as int),
            ),
    ;

    /// A result package reads back as its result and takes all its bytes.
    proof fn lemma_output_round_trip(output: O)
        ensures
            Self::read_output(Self::output_bytes(output)) == Some(
                (output, Self::output_bytes(output).len() as int),
            ),
    ;
}

/// Whether the sum of the two numbers fits an `i32`.
pub open spec fn sum_fits(args: (i32, i32)) -> bool {
    i32::MIN <= args.0 + args.1 <= i32::MAX
}

/// Adds the two numbers of the pair.
pub fn add(args: (i32, i32)) -> (r: i32)
    requires
        sum_fits(args),
    ensures
        r == args.0 + args.1,
{
    let (x, y) = args;
    x + y
}

/// How bincode's standard configuration reads a variable-length `u32` from
/// the front of a byte sequence: the value and the number of bytes taken,
/// or `None` when the bytes do not start with one.
pub open spec fn read_varint_u32(s: Seq<u8>) -> Option<(u32, int)> {
    if s.len() >= 1 && s[0] <= 250 {
        Some((s[0] as u32, 1))
    } else if s.len() >= 3 && s[0] == 251 {
        Some(((s[1] + 256 * s[2]) as u32, 3))
    } else if s.len() >= 5 && s[0] == 252 {
        Some(((s[1] + 256 * s[2] + 65536 * s[3] + 16777216 * s[4]) as u32, 5))
    } else {
        None
    }
}

/// The inverse of the zigzag mapping: even numbers are the non-negative
/// numbers doubled, odd numbers the negative ones.
pub open spec fn unzigzag(u: u32) -> i32 {
    if u % 2 == 0 {
        (u / 2) as i32
    } else {
        (-(u / 2) - 1) as i32
    }
}

/// How bincode's standard configuration reads an `i32` from the front of a
/// byte sequence: the value and the number of bytes taken.
pub open spec fn read_standard_i32(s: Seq<u8>) -> Option<(i32, int)> {
    match read_varint_u32(s) {
        Some((u, n)) => Some((unzigzag(u), n)),
        None => None,
    }
}

/// How bincode's standard configuration reads an `(i32, i32)` pair from the
/// front of a byte sequence: the pair and the number of bytes taken.
pub open spec fn read_standard_i32_pair(s: Seq<u8>) -> Option<((i32, i32), int)> {
    match read_standard_i32(s) {
        Some((x, n)) => match read_standard_i32(s.skip(n)) {
            Some((y, m)) => Some(((x, y), n + m)),
            None => None,
        },
        None => None,
    }
}

/// A variable-length `u32` reads back as itself, whatever follows it.
proof fn lemma_read_varint_u32(u: u32, rest: Seq<u8>)
    ensures
        read_varint_u32(varint_u32(u) + rest) == Some((u, varint_u32(u).len() as int)),
{
    let s = varint_u32(u) + rest;
    if u <= 250 {
    } else if u <= 0xffff {
        assert(u == (u % 256) + 256 * (u / 256) && u / 256 < 256) by (bit_vector)
            requires
                u <= 0xffff,
        ;
        assert(s[1] == u % 256 && s[2] == u / 256);
    } else {
        assert(u == (u % 256) + 256 * ((u / 256) % 256) + 65536 * ((u / 65536) % 256) + 16777216 * (
        u / 16777216) && u / 16777216 < 256) by (bit_vector);
        assert(s[1] == u % 256 && s[2] == (u / 256) % 256 && s[3] == (u / 65536) % 256 && s[4]
            == u / 16777216);
    }
}

/// The zigzag mapping is undone by its inverse.
proof fn lemma_unzigzag_zigzag(v: i32)
    ensures
        unzigzag(zigzag(v)) == v,
{
}

/// An `i32` in the standard encoding reads back as itself, whatever
/// follows it.
proof fn lemma_read_standard_i32(v: i32, rest: Seq<u8>)
    ensures
        read_standard_i32(standard_i32(v) + rest) == Some((v, standard_i32(v).len() as int)),
{
    lemma_read_varint_u32(zigzag(v), rest);
    lemma_unzigzag_zigzag(v);
}

/// A result package reads back, in bincode's standard configuration, as the
/// result it was made from, taking all of its bytes.
pub proof fn lemma_return_package_decodes(output: i32)
    ensures
        read_standard_i32(standard_i32(output)) == Some(
            (output, standard_i32(output).len() as int),
        ),
{
    lemma_read_standard_i32(output, Seq::empty());
    assert(standard_i32(output) + Seq::<u8>::empty() =~= standard_i32(output));
}

/// A call package reads back, in bincode's standard configuration, as the
/// arguments it was made from, taking all of its bytes.
pub proof fn lemma_call_package_decodes(args: (i32, i32))
    ensures
        read_standard_i32_pair(standard_i32_pair(args)) == Some(
            (args, standard_i32_pair(args).len() as int),
        ),
{
    let s = standard_i32_pair(args);
    let n = standard_i32(args.0).len() as int;
    lemma_read_standard_i32(args.0, standard_i32(args.1));
    assert(s.skip(n) =~= standard_i32(args.1));
    lemma_return_package_decodes(args.1);
}

/// Two variable-length `u32` followed by other bytes are the same bytes
/// only when the numbers and what follows are the same.
proof fn lemma_varint_u32_prefix_free(u: u32, w: u32, r1: Seq<u8>, r2: Seq<u8>)
    requires
        varint_u32(u) + r1 == varint_u32(w) + r2,
    ensures
        u == w,
        r1 == r2,
{
    lemma_read_varint_u32(u, r1);
    lemma_read_varint_u32(w, r2);
    let n = varint_u32(u).len() as int;
    assert(r1 =~= (varint_u32(u) + r1).skip(n));
    assert(r2 =~= (varint_u32(w) + r2).skip(n));
}

/// The zigzag mapping sends different numbers to different numbers.
proof fn lemma_zigzag_injective(a: i32, b: i32)
    requires
        zigzag(a) == zigzag(b),
    ensures
        a == b,
{
}

/// Different numbers give different result packages: a package names the
/// result it carries.
pub proof fn lemma_return_package_injective(a: i32, b: i32)
    requires
        standard_i32(a) == standard_i32(b),
    ensures
        a == b,
{
    lemma_varint_u32_prefix_free(zigzag(a), zigzag(b), Seq::empty(), Seq::empty());
    assert(standard_i32(a) + Seq::<u8>::empty() =~= standard_i32(a));
    assert(standard_i32(b) + Seq::<u8>::empty() =~= standard_i32(b));
    lemma_zigzag_injective(a, b);
}

/// Different argument pairs give different call packages: a package names
/// the arguments it carries.
pub proof fn lemma_call_package_injective(a: (i32, i32), b: (i32, i32))
    requires
        standard_i32_pair(a) == standard_i32_pair(b),
    ensures
        a == b,
{
    lemma_varint_u32_prefix_free(
        zigzag(a.0),
        zigzag(b.0),
        standard_i32(a.1),
        standard_i32(b.1),
    );
    lemma_zigzag_injective(a.0, b.0);
    lemma_return_package_injective(a.1, b.1);
}

/// The addition of two `i32` as a remote procedure.
pub struct AddRpc;

impl RpcFunction<(i32, i32), i32> for AddRpc {
    open spec fn accepts(&self, args: (i32, i32)) -> bool {
        sum_fits(args)
    }

    open spec fn result_of(&self, args: (i32, i32)) -> i32 {
        (args.0 + args.1) as i32
    }

    open spec fn args_bytes(args: (i32, i32)) -> Seq<u8> {
        standard_i32_pair(args)
    }

    open spec fn output_bytes(output: i32) -> Seq<u8> {
        standard_i32(output)
    }

    open spec fn read_args(bytes: Seq<u8>) -> Option<((i32, i32), int)> {
        read_standard_i32_pair(bytes)
    }

    open spec fn read_output(bytes: Seq<u8>) -> Option<(i32, int)> {
        read_standard_i32(bytes)
    }

    proof fn lemma_args_round_trip(args: (i32, i32)) {
        lemma_call_package_decodes(args);
    }

    proof fn lemma_output_round_trip(output: i32) {
        lemma_return_package_decodes(output);
    }

    fn new() -> Self {
        AddRpc
    }

    /// The sum of the two numbers.
    fn call(&self, args: (i32, i32)) -> (r: i32)
        ensures
            r == args.0 + args.1,
    {
        self::add(args)
    }

    /// The name of the function, `add`.
    fn name(&self) -> (r: String)
        ensures
            r@ == seq!['a', 'd', 'd'],
    {
        let r = "add".to_owned();
        proof {
            reveal_strlit("add");
        }
        r
    }

    /// The arguments in bincode's standard encoding.
    fn call_package(args: (i32, i32)) -> (r: Result<Vec<u8>, BusError>)
        ensures
            r matches Ok(bytes) && bytes@ == standard_i32_pair(args),
    {
        match encode_i32_pair(args) {
            Ok(bytes) => Ok(bytes),
            Err(_) => Err(BusError::Encode),
        }
    }

    /// The result in bincode's standard encoding.
    fn return_package(output: i32) -> (r: Result<Vec<u8>, BusError>)
        ensures
            r matches Ok(bytes) && bytes@ == standard_i32(output),
    {
        match encode_i32(output) {
            Ok(bytes) => Ok(bytes),
            Err(_) => Err(BusError::Encode),
        }
    }
}

} // verus!
