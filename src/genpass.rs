use vstd::prelude::*;
use rand::rngs::{OsRng, StdRng};
use rand::{Rng, SeedableRng};

verus! {

/// `A` to `Z`.
pub open spec fn upper_set() -> Seq<u8> {
    Seq::new(26, |i: int| (65 + i) as u8)
}

/// `a` to `z`.
pub open spec fn lower_set() -> Seq<u8> {
    Seq::new(26, |i: int| (97 + i) as u8)
}

/// `0` to `9`.
pub open spec fn digit_set() -> Seq<u8> {
    Seq::new(10, |i: int| (48 + i) as u8)
}

/// `!@#$%^&*_`.
pub open spec fn symbol_set() -> Seq<u8> {
    seq![33u8, 64u8, 35u8, 36u8, 37u8, 94u8, 38u8, 42u8, 95u8]
}

pub open spec fn chosen(on: bool, set: Seq<u8>) -> Seq<u8> {
    if on {
        set
    } else {
        Seq::empty()
    }
}

/// The characters a password may hold, class by class in a fixed order.
pub open spec fn charset_of(uppercase: bool, lowercase: bool, numbers: bool, symbols: bool) -> Seq<u8> {
    chosen(uppercase, upper_set()) + chosen(lowercase, lower_set()) + chosen(numbers, digit_set())
        + chosen(symbols, symbol_set())
}

/// Why no password came out.
#[derive(Clone, Copy, Debug, PartialEq, Eq, Structural)]
pub enum GenPassError {
    /// No character class was selected, so there is nothing to draw from.
    NoCharacterClass,
    /// The secure random source is unavailable.
    Randomness,
}

#[verifier::external_type_specification]
#[verifier::external_body]
pub struct ExStdRng(rand::rngs::StdRng);

/// Relies on `SeedableRng::from_rng` for `rand::rngs::StdRng`, seeded from
/// `rand::rngs::OsRng` through `try_fill_bytes`: a generator, or the source's error.
#[verifier::external_body]
fn seeded_generator() -> (r: Result<StdRng, rand::Error>) {
    StdRng::from_rng(OsRng)
}

/// Relies on `rand::Rng::gen_range` over a `StdRng`: a number below `bound`. The range is
/// not empty, and drawing from a seeded `StdRng` cannot fail.
#[verifier::external_body]
fn draw_below(rng: &mut StdRng, bound: usize) -> (r: usize)
    requires
        bound > 0,
    ensures
        r < bound,
{
    rng.gen_range(0..bound)
}

fn push_run(v: &mut Vec<u8>, first: u8, count: u8)
    requires
        first as int + count as int <= 256,
    ensures
        final(v)@ == old(v)@ + Seq::new(count as nat, |i: int| (first + i) as u8),
{
    let ghost before = old(v)@;
    let mut k: u8 = 0;
    while k < count
        invariant
            k <= count,
            first as int + count as int <= 256,
            v@ == before + Seq::new(k as nat, |i: int| (first + i) as u8),
        decreases count - k,
    {
        v.push(first + k);
        k = k + 1;
        assert(v@ =~= before + Seq::new(k as nat, |i: int| (first + i) as u8));
    }
}

/// The characters of the selected classes.
pub fn charset(uppercase: bool, lowercase: bool, numbers: bool, symbols: bool) -> (r: Vec<u8>)
    ensures
        r@ == charset_of(uppercase, lowercase, numbers, symbols),
{
    let mut v: Vec<u8> = Vec::new();
    if uppercase {
        push_run(&mut v, 65, 26);
    }
    assert(v@ =~= chosen(uppercase, upper_set()));
    let ghost a = v@;
    if lowercase {
        push_run(&mut v, 97, 26);
    }
    assert(v@ =~= a + chosen(lowercase, lower_set()));
    let ghost b = v@;
    if numbers {
        push_run(&mut v, 48, 10);
    }
    assert(v@ =~= b + chosen(numbers, digit_set()));
    let ghost c = v@;
    if symbols {
        v.push(33);
        v.push(64);
        v.push(35);
        v.push(36);
        v.push(37);
        v.push(94);
        v.push(38);
        v.push(42);
        v.push(95);
    }
    assert(v@ =~= c + chosen(symbols, symbol_set()));
    v
}

/// The password that the random positions `draws` pick out of `charset`.
pub fn password_from_draws(charset: &[u8], draws: &[usize]) -> (r: Vec<u8>)
    requires
        forall|i: int| 0 <= i < draws@.len() ==> draws@[i] < charset@.len(),
    ensures
        r@ == Seq::new(draws@.len(), |i: int| charset@[draws@[i] as int]),
{
    let mut r: Vec<u8> = Vec::new();
    let mut i: usize = 0;
    while i < draws.len()
        invariant
            i <= draws@.len(),
            forall|j: int| 0 <= j < draws@.len() ==> draws@[j] < charset@.len(),
            r@ == Seq::new(i as nat, |j: int| charset@[draws@[j] as int]),
        decreases draws@.len() - i,
    {
        r.push(charset[draws[i]]);
        i = i + 1;
        assert(r@ =~= Seq::new(i as nat, |j: int| charset@[draws@[j] as int]));
    }
    r
}

/// Generates a password of `length` ASCII characters, each drawn at random from the
/// selected classes. With no class selected there is nothing to draw from; where the
/// random source fails, no password comes out.
pub fn process_genpass(length: u8, uppercase: bool, lowercase: bool, numbers: bool, symbols: bool) -> (r:
    Result<Vec<u8>, GenPassError>)
    ensures
        charset_of(uppercase, lowercase, numbers, symbols).len() == 0 <==> r == Err::<
            Vec<u8>,
            GenPassError,
        >(GenPassError::NoCharacterClass),
        r is Ok ==> r->Ok_0@.len() == length,
        r is Ok ==> forall|i: int|
            0 <= i < r->Ok_0@.len() ==> charset_of(uppercase, lowercase, numbers, symbols).contains(
                #[trigger] r->Ok_0@[i],
            ),
{
    let chars = charset(uppercase, lowercase, numbers, symbols);
    if chars.len() == 0 {
        return Err(GenPassError::NoCharacterClass);
    }
    let mut rng = match seeded_generator() {
        Ok(rng) => rng,
        Err(_) => return Err(GenPassError::Randomness),
    };
    let mut draws: Vec<usize> = Vec::new();
    let mut k: u8 = 0;
    while k < length
        invariant
            k <= length,
            chars@.len() > 0,
            draws@.len() == k,
            forall|j: int| 0 <= j < draws@.len() ==> draws@[j] < chars@.len(),
        decreases length - k,
    {
        draws.push(draw_below(&mut rng, chars.len()));
        k = k + 1;
    }
    let p = password_from_draws(chars.as_slice(), draws.as_slice());
    assert forall|i: int| 0 <= i < p@.len() implies chars@.contains(#[trigger] p@[i]) by {
        assert(p@[i] == chars@[draws@[i] as int]);
    }
    Ok(p)
}

} // verus!
