use rand::Rng;
use vstd::prelude::*;

verus! {

/// The letters from which random texts are made.
pub const LETTERS: &'static str = "abcdefghijklmnopqrstuvwxyz";

/// The number of letters of a random text.
pub const LENGTH: usize = 64;

/// The small letter that a byte stands for: `a` for 0, 26, 52 and so on,
/// `b` for the bytes that follow them.
pub open spec fn letter_of(byte: u8) -> char {
    (byte % 26 + 97) as char
}

/// The letters that bytes stand for, in order.
pub open spec fn letters_of(bytes: Seq<u8>) -> Seq<char> {
    bytes.map_values(|byte: u8| letter_of(byte))
}

/// `rand::Rng::random` on the generator of the thread, `rand::rng`: a byte
/// of which nothing is known.
#[verifier::external_body]
fn random_byte() -> u8 {
    rand::rng().random::<u8>()
}

/// The text of the letters that the bytes stand for.
pub fn letters(bytes: &Vec<u8>) -> (text: String)
    ensures
        text@ == letters_of(bytes@),
{
    proof {
        reveal_strlit("abcdefghijklmnopqrstuvwxyz");
    }
    let mut text = String::new();
    let mut i: usize = 0;
    assert(text@ =~= letters_of(bytes@.take(0)));
    while i < bytes.len()
        invariant
            i <= bytes.len(),
            text@ == letters_of(bytes@.take(i as int)),
            LETTERS@.len() == 26,
            vstd::string::is_ascii(LETTERS),
            forall|k: int| 0 <= k < 26 ==> #[trigger] LETTERS@[k] == (k + 97) as char,
        decreases bytes.len() - i,
    {
        let place = (bytes[i] % 26) as usize;
        let letter = LETTERS.substring_ascii(place, place + 1);
        let ghost before = text@;
        text.append(letter);
        proof {
            assert(letter@ =~= seq![LETTERS@[place as int]]);
            assert(LETTERS@[place as int] == letter_of(bytes@[i as int])) by {
                let k = place as int;
                assert(LETTERS@[k] == ((k + 97)) as char);
            }
            assert(letters_of(bytes@.take(i + 1)) =~= before.push(letter_of(bytes@[i as int])));
            assert(text@ =~= before.push(letter_of(bytes@[i as int])));
        }
        i += 1;
    }
    assert(bytes@.take(bytes.len() as int) =~= bytes@);
    text
}

/// A text of 64 small letters, chosen at random.
pub fn random_string() -> (text: String)
    ensures
        text@.len() == LENGTH,
        forall|i: int| 0 <= i < text@.len() ==> 'a' <= #[trigger] text@[i] <= 'z',
        exists|bytes: Seq<u8>| bytes.len() == LENGTH && text@ == #[trigger] letters_of(bytes),
{
    let mut bytes: Vec<u8> = Vec::new();
    while bytes.len() < LENGTH
        invariant
            bytes.len() <= LENGTH,
        decreases LENGTH - bytes.len(),
    {
        bytes.push(random_byte());
    }
    let text = letters(&bytes);
    assert forall|i: int| 0 <= i < text@.len() implies 'a' <= #[trigger] text@[i] <= 'z' by {
        assert(text@[i] == letter_of(bytes@[i]));
    }
    text
}

} // verus!
