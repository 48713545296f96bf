use vstd::prelude::*;

use crate::item::{cat_tag, dog_tag, same_text, Pet, PetKind, UNSAVED_ID};

verus! {

/// Whether `c` is an ASCII decimal digit.
pub open spec fn is_digit(c: char) -> bool {
    '0' <= c && c <= '9'
}

/// The value of a run of decimal digits, most significant first.
pub open spec fn digits_value(s: Seq<char>) -> int
    decreases s.len(),
{
    if s.len() == 0 {
        0
    } else {
        digits_value(s.drop_last()) * 10 + (s.last() as int - '0' as int)
    }
}

/// Whether `s` is a non-empty run of decimal digits.
pub open spec fn all_digits(s: Seq<char>) -> bool {
    s.len() > 0 && forall|i: int| 0 <= i < s.len() ==> is_digit(#[trigger] s[i])
}

/// The integer that `s` writes in decimal, with an optional leading `+` or
/// `-` and no other character (no blanks), or none.
pub open spec fn decimal_value(s: Seq<char>) -> Option<int> {
    if s.len() > 0 && s[0] == '-' {
        if all_digits(s.drop_first()) {
            Some(-digits_value(s.drop_first()))
        } else {
            None
        }
    } else if s.len() > 0 && s[0] == '+' {
        if all_digits(s.drop_first()) {
            Some(digits_value(s.drop_first()))
        } else {
            None
        }
    } else if all_digits(s) {
        Some(digits_value(s))
    } else {
        None
    }
}

/// The `i64` that `s` writes in decimal, or none where it writes no integer
/// or one out of range.
pub open spec fn parsed_i64(s: Seq<char>) -> Option<i64> {
    match decimal_value(s) {
        Some(v) => if i64::MIN <= v <= i64::MAX {
            Some(v as i64)
        } else {
            None
        },
        None => None,
    }
}

/// Relies on `<i64 as FromStr>::from_str`: it accepts exactly an optional sign
/// followed by one or more ASCII digits, with a value that fits in `i64`.
#[verifier::external_body]
fn parse_i64(s: &str) -> (r: Option<i64>)
    ensures
        r == parsed_i64(s@),
{
    s.parse::<i64>().ok()
}

/// Why a draft could not become a record.
#[derive(Debug, PartialEq, Eq, Structural)]
pub enum FormError {
    /// The age field is not an integer.
    InvalidAge,
}

/// The add form's raw fields, parsed only on submission.
#[derive(Debug, Clone, PartialEq)]
pub struct AddForm {
    pub show: bool,
    pub name: String,
    pub age: String,
    pub kind: String,
}

/// The species tag that a draft's kind text stands for: `cat` stays a cat,
/// anything else becomes a dog.
pub open spec fn draft_kind(kind: Seq<char>) -> Seq<char> {
    if kind == cat_tag() {
        cat_tag()
    } else {
        dog_tag()
    }
}

impl AddForm {
    /// Whether every field is at its initial value: hidden and blank.
    pub open spec fn is_cleared(&self) -> bool {
        !self.show && self.name@.len() == 0 && self.age@.len() == 0 && self.kind@.len() == 0
    }

    /// Whether `p` is the unsaved record that this draft describes, with the
    /// age `age`.
    pub open spec fn describes(&self, p: Pet, age: i64) -> bool {
        &&& p.id == UNSAVED_ID
        &&& p.name@ == self.name@
        &&& p.age == age
        &&& p.kind.0@ == draft_kind(self.kind@)
    }

    /// Whether the age field holds an integer.
    pub open spec fn to_pet_ok(&self) -> bool {
        parsed_i64(self.age@) is Some
    }

    /// The age that the age field holds, where it holds one.
    pub open spec fn age_value(&self) -> i64 {
        parsed_i64(self.age@)->Some_0
    }

    /// A hidden form with blank fields.
    pub fn new() -> (r: AddForm)
        ensures
            r.is_cleared(),
    {
        AddForm { show: false, name: String::new(), age: String::new(), kind: String::new() }
    }

    /// The unsaved record that this draft describes; fails where the age is
    /// not an integer.
    pub fn to_pet(&self) -> (r: Result<Pet, FormError>)
        ensures
            r is Ok <==> self.to_pet_ok(),
            r is Ok ==> self.describes(r->Ok_0, self.age_value()),
            r is Err ==> r->Err_0 == FormError::InvalidAge,
    {
        let name = self.name.clone();
        let age = match parse_i64(self.age.as_str()) {
            Some(a) => a,
            None => return Err(FormError::InvalidAge),
        };
        let cat = "cat";
        let dog = "dog";
        proof {
            reveal_strlit("cat");
            reveal_strlit("dog");
            assert(cat@ =~= cat_tag());
            assert(dog@ =~= dog_tag());
        }
        let kind = if same_text(self.kind.as_str(), cat) {
            cat
        } else {
            dog
        };
        Ok(Pet::new(UNSAVED_ID, name, age, PetKind::new(kind.to_owned())))
    }
}

impl Default for AddForm {
    fn default() -> (r: AddForm)
        ensures
            r.is_cleared(),
    {
        AddForm::new()
    }
}

} // verus!
