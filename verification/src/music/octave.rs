//! The [`Octave`] enum and its arithmetic.

use vstd::prelude::*;
use vstd::arithmetic::power2::{pow2, lemma2_to64};

verus! {

/// A trait for types that have an octave property.
pub trait HasOctave {
    /// Returns the octave of the type.
    fn octave(&self) -> Octave;
}

/// A musical octave, numbered 0 through 15.
#[derive(PartialEq, Eq, Copy, Clone, Hash, Debug, Default, Ord, PartialOrd, Structural)]
pub enum Octave {
    /// Octave number 0.
    Zero,
    /// Octave number 1.
    One,
    /// Octave number 2.
    Two,
    /// Octave number 3.
    Three,
    /// Octave number 4.
    #[default]
    Four,
    /// Octave number 5.
    Five,
    /// Octave number 6.
    Six,
    /// Octave number 7.
    Seven,
    /// Octave number 8.
    Eight,
    /// Octave number 9.
    Nine,
    /// Octave number 10.
    Ten,
    /// Octave number 11.
    Eleven,
    /// Octave number 12.
    Twelve,
    /// Octave number 13.
    Thirteen,
    /// Octave number 14.
    Fourteen,
    /// Octave number 15.
    Fifteen,
}

impl Octave {
    /// The octave's number.
    pub open spec fn number_spec(self) -> int {
        match self {
            Octave::Zero => 0,
            Octave::One => 1,
            Octave::Two => 2,
            Octave::Three => 3,
            Octave::Four => 4,
            Octave::Five => 5,
            Octave::Six => 6,
            Octave::Seven => 7,
            Octave::Eight => 8,
            Octave::Nine => 9,
            Octave::Ten => 10,
            Octave::Eleven => 11,
            Octave::Twelve => 12,
            Octave::Thirteen => 13,
            Octave::Fourteen => 14,
            Octave::Fifteen => 15,
        }
    }

    /// Returns the octave's number.
    pub fn number(self) -> (r: u8)
        ensures
            r == self.number_spec(),
    {
        match self {
            Octave::Zero => 0,
            Octave::One => 1,
            Octave::Two => 2,
            Octave::Three => 3,
            Octave::Four => 4,
            Octave::Five => 5,
            Octave::Six => 6,
            Octave::Seven => 7,
            Octave::Eight => 8,
            Octave::Nine => 9,
            Octave::Ten => 10,
            Octave::Eleven => 11,
            Octave::Twelve => 12,
            Octave::Thirteen => 13,
            Octave::Fourteen => 14,
            Octave::Fifteen => 15,
        }
    }

    /// Returns the octave with the given number, or an error above 15.
    pub fn try_from(value: u8) -> (r: Result<Octave, &'static str>)
        ensures
            value <= 15 ==> (r matches Ok(o) && o.number_spec() == value),
            value > 15 ==> r is Err,
    {
        match value {
            0 => Ok(Octave::Zero),
            1 => Ok(Octave::One),
            2 => Ok(Octave::Two),
            3 => Ok(Octave::Three),
            4 => Ok(Octave::Four),
            5 => Ok(Octave::Five),
            6 => Ok(Octave::Six),
            7 => Ok(Octave::Seven),
            8 => Ok(Octave::Eight),
            9 => Ok(Octave::Nine),
            10 => Ok(Octave::Ten),
            11 => Ok(Octave::Eleven),
            12 => Ok(Octave::Twelve),
            13 => Ok(Octave::Thirteen),
            14 => Ok(Octave::Fourteen),
            15 => Ok(Octave::Fifteen),
            _ => Err("Octave overflow."),
        }
    }

    /// The sum of two octaves, which must not pass octave 15.
    pub fn add(self, rhs: Octave) -> (r: Octave)
        requires
            self.number_spec() + rhs.number_spec() <= 15,
        ensures
            r.number_spec() == self.number_spec() + rhs.number_spec(),
    {
        let n = self.number() + rhs.number();
        let r = Octave::try_from(n);
        match r {
            Ok(o) => o,
            Err(_) => self,
        }
    }

    /// The difference of two octaves, which must not pass octave 0.
    pub fn sub(self, rhs: Octave) -> (r: Octave)
        requires
            self.number_spec() - rhs.number_spec() >= 0,
        ensures
            r.number_spec() == self.number_spec() - rhs.number_spec(),
    {
        let n = self.number() - rhs.number();
        match Octave::try_from(n) {
            Ok(o) => o,
            Err(_) => self,
        }
    }

    /// The octave shifted by a signed number of octaves, which must stay
    /// between octave 0 and octave 15.
    pub fn add_i8(self, rhs: i8) -> (r: Octave)
        requires
            0 <= self.number_spec() + rhs <= 15,
        ensures
            r.number_spec() == self.number_spec() + rhs,
    {
        let n = self.number() as i8 + rhs;
        match Octave::try_from(n as u8) {
            Ok(o) => o,
            Err(_) => self,
        }
    }

    /// The octave shifted down by a signed number of octaves, which must
    /// stay between octave 0 and octave 15.
    pub fn sub_i8(self, rhs: i8) -> (r: Octave)
        requires
            -15 <= rhs,
            0 <= self.number_spec() - rhs <= 15,
        ensures
            r.number_spec() == self.number_spec() - rhs,
    {
        self.add_i8(-rhs)
    }

    /// Two to the power of the octave's number: the factor by which this
    /// octave raises a base frequency.
    pub fn multiplier(self) -> (r: i64)
        ensures
            r == pow2(self.number_spec() as nat),
            1 <= r <= 32768,
    {
        proof {
            lemma2_to64();
        }
        match self {
            Octave::Zero => 1,
            Octave::One => 2,
            Octave::Two => 4,
            Octave::Three => 8,
            Octave::Four => 16,
            Octave::Five => 32,
            Octave::Six => 64,
            Octave::Seven => 128,
            Octave::Eight => 256,
            Octave::Nine => 512,
            Octave::Ten => 1024,
            Octave::Eleven => 2048,
            Octave::Twelve => 4096,
            Octave::Thirteen => 8192,
            Octave::Fourteen => 16384,
            Octave::Fifteen => 32768,
        }
    }

    /// The octave's name.
    pub fn static_name(&self) -> (r: &'static str)
        ensures
            r@ == self.name_spec(),
    {
        proof {
            reveal_strlit("0");
            reveal_strlit("1");
            reveal_strlit("2");
            reveal_strlit("3");
            reveal_strlit("4");
            reveal_strlit("5");
            reveal_strlit("6");
            reveal_strlit("7");
            reveal_strlit("8");
            reveal_strlit("9");
            reveal_strlit("10");
            reveal_strlit("11");
            reveal_strlit("12");
            reveal_strlit("13");
            reveal_strlit("14");
            reveal_strlit("15");
        }
        match self {
            Octave::Zero => "0",
            Octave::One => "1",
            Octave::Two => "2",
            Octave::Three => "3",
            Octave::Four => "4",
            Octave::Five => "5",
            Octave::Six => "6",
            Octave::Seven => "7",
            Octave::Eight => "8",
            Octave::Nine => "9",
            Octave::Ten => "10",
            Octave::Eleven => "11",
            Octave::Twelve => "12",
            Octave::Thirteen => "13",
            Octave::Fourteen => "14",
            Octave::Fifteen => "15",
        }
    }

    /// The octave's name, as decimal digits of its number.
    pub open spec fn name_spec(self) -> Seq<char> {
        match self {
            Octave::Zero => seq!['0'],
            Octave::One => seq!['1'],
            Octave::Two => seq!['2'],
            Octave::Three => seq!['3'],
            Octave::Four => seq!['4'],
            Octave::Five => seq!['5'],
            Octave::Six => seq!['6'],
            Octave::Seven => seq!['7'],
            Octave::Eight => seq!['8'],
            Octave::Nine => seq!['9'],
            Octave::Ten => seq!['1', '0'],
            Octave::Eleven => seq!['1', '1'],
            Octave::Twelve => seq!['1', '2'],
            Octave::Thirteen => seq!['1', '3'],
            Octave::Fourteen => seq!['1', '4'],
            Octave::Fifteen => seq!['1', '5'],
        }
    }

    /// All sixteen octaves in ascending order.
    pub fn all_octaves() -> (r: Vec<Octave>)
        ensures
            r@.len() == 16,
            forall|i: int| 0 <= i < 16 ==> (#[trigger] r@[i]).number_spec() == i,
    {
        let mut v: Vec<Octave> = Vec::new();
        v.push(Octave::Zero);
        v.push(Octave::One);
        v.push(Octave::Two);
        v.push(Octave::Three);
        v.push(Octave::Four);
        v.push(Octave::Five);
        v.push(Octave::Six);
        v.push(Octave::Seven);
        v.push(Octave::Eight);
        v.push(Octave::Nine);
        v.push(Octave::Ten);
        v.push(Octave::Eleven);
        v.push(Octave::Twelve);
        v.push(Octave::Thirteen);
        v.push(Octave::Fourteen);
        v.push(Octave::Fifteen);
        v
    }
}

impl HasOctave for Octave {
    /// An octave's octave is itself.
    fn octave(&self) -> (r: Octave)
        ensures
            r == *self,
    {
        *self
    }
}

} // verus!
