use vstd::prelude::*;

verus! {

#[verifier::external_type_specification]
#[verifier::external_body]
pub struct ExJsonValue(json::JsonValue);

/// What `json::parse` makes of a text: `None` where the text is not JSON.
pub uninterp spec fn parse_of(text: Seq<char>) -> Option<json::JsonValue>;

/// The member of a JSON value under a key, as `Index<&str>` gives it.
pub uninterp spec fn member_of(value: json::JsonValue, key: Seq<char>) -> json::JsonValue;

/// What `JsonValue::as_bool` gives for a value: `Some` for a JSON boolean only.
pub uninterp spec fn bool_of(value: json::JsonValue) -> Option<bool>;

/// Longest run of digits after a `.` that json's parser reads safely: it
/// lowers an `i16` exponent once per fraction digit without an overflow check.
pub const FRACTION_DIGITS_LIMIT: usize = 32767;

pub open spec fn is_digit_byte(b: u8) -> bool {
    48 <= b <= 57
}

/// `bytes[i]` is a `.` followed by more than `FRACTION_DIGITS_LIMIT` digits.
pub open spec fn long_fraction_at(bytes: Seq<u8>, i: int) -> bool {
    &&& 0 <= i
    &&& i + FRACTION_DIGITS_LIMIT + 1 < bytes.len()
    &&& bytes[i] == 46u8
    &&& forall|k: int| i < k <= i + FRACTION_DIGITS_LIMIT + 1 ==> is_digit_byte(#[trigger] bytes[k])
}

/// Some `.` in `bytes` is followed by more than `FRACTION_DIGITS_LIMIT` digits.
pub open spec fn has_long_fraction(bytes: Seq<u8>) -> bool {
    exists|i: int| long_fraction_at(bytes, i)
}

/// Whether some `.` in `bytes` is followed by more than
/// `FRACTION_DIGITS_LIMIT` digits.
pub fn find_long_fraction(bytes: &[u8]) -> (r: bool)
    ensures
        r == has_long_fraction(bytes@),
{
    let n = bytes.len();
    let mut idx: usize = 0;
    // Whether the bytes since the last `.` before `idx` are all digits, and how many.
    let mut open = false;
    let mut digits: usize = 0;
    while idx < n
        invariant
            n == bytes@.len(),
            idx <= n,
            digits <= FRACTION_DIGITS_LIMIT,
            open ==> digits < idx,
            open ==> bytes@[idx - digits - 1] == 46u8,
            open ==> forall|k: int| idx - digits - 1 < k < idx ==> is_digit_byte(#[trigger] bytes@[k]),
            !open ==> forall|j: int|
                0 <= j < idx && #[trigger] bytes@[j] == 46u8 ==> exists|k: int|
                    j < k < idx && !is_digit_byte(#[trigger] bytes@[k]),
            forall|i: int| i + FRACTION_DIGITS_LIMIT + 1 < idx ==> !long_fraction_at(bytes@, i),
        decreases n - idx,
    {
        let c = bytes[idx];
        if open && 48 <= c && c <= 57 && digits == FRACTION_DIGITS_LIMIT {
            let ghost i = idx - digits - 1;
            assert(long_fraction_at(bytes@, i));
            return true;
        }
        proof {
            let ghost i = idx - FRACTION_DIGITS_LIMIT - 1;
            if 0 <= i && long_fraction_at(bytes@, i) {
                if open {
                    if digits < FRACTION_DIGITS_LIMIT {
                        let ghost d = idx - digits - 1;
                        assert(i < d);
                        assert(is_digit_byte(bytes@[d]));
                    }
                } else {
                    let ghost k = choose|k: int| i < k < idx && !is_digit_byte(bytes@[k]);
                    assert(is_digit_byte(bytes@[k]));
                }
            }
        }
        if c == 46u8 {
            open = true;
            digits = 0;
        } else if open && 48 <= c && c <= 57 {
            digits = digits + 1;
        } else {
            proof {
                assert forall|j: int|
                    0 <= j < idx + 1 && #[trigger] bytes@[j] == 46u8 implies exists|k: int|
                        j < k < idx + 1 && !is_digit_byte(#[trigger] bytes@[k]) by {
                    if !is_digit_byte(c) {
                        assert(!is_digit_byte(bytes@[idx as int]));
                    } else if j < idx {
                        let k = choose|k: int| j < k < idx && !is_digit_byte(bytes@[k]);
                        assert(!is_digit_byte(bytes@[k]));
                    }
                }
            }
            open = false;
        }
        idx = idx + 1;
    }
    proof {
        assert forall|i: int| !long_fraction_at(bytes@, i) by {
            if long_fraction_at(bytes@, i) {
                assert(i + FRACTION_DIGITS_LIMIT + 1 < idx);
            }
        }
    }
    false
}

/// Relies on json::parse: the outcome depends on the text alone.  With
/// overflow checks on, the parser panics where a `.` is followed by more than
/// 32768 digits; texts with a fraction longer than `FRACTION_DIGITS_LIMIT`
/// are left out.
#[verifier::external_body]
fn parse_text(text: &str) -> (r: Option<json::JsonValue>)
    requires
        !has_long_fraction(vstd::utf8::encode_utf8(text@)),
    ensures
        r == parse_of(text@),
{
    json::parse(text).ok()
}

/// Relies on `Index<&str>` for json::JsonValue: the member under `key`
/// (JSON null where there is none).
#[verifier::external_body]
fn member<'a>(value: &'a json::JsonValue, key: &str) -> (r: &'a json::JsonValue)
    ensures
        *r == member_of(*value, key@),
{
    &value[key]
}

/// Relies on json::JsonValue::as_bool.
pub assume_specification[ json::JsonValue::as_bool ](value: &json::JsonValue) -> (r: Option<bool>)
    ensures
        r == bool_of(*value),
;

/// The player's intents for one tick.  The flags are independent; the engine
/// decides the order in which they take effect.
#[derive(PartialEq, Eq, Structural, Clone, Copy, Debug)]
pub struct ElevatorGameInput {
    pub collect_tips: bool,
    pub append_floor: bool,
    pub append_elevator: bool,
    pub add_elevator_capacity: bool,
    pub add_floor_capacity: bool,
}

/// The command made of five looked-up flags, or `None` where any is missing.
pub open spec fn input_of_fields(
    collect_tips: Option<bool>,
    append_floor: Option<bool>,
    append_elevator: Option<bool>,
    add_elevator_capacity: Option<bool>,
    add_floor_capacity: Option<bool>,
) -> Option<ElevatorGameInput> {
    if collect_tips is Some && append_floor is Some && append_elevator is Some
        && add_elevator_capacity is Some && add_floor_capacity is Some {
        Some(
            ElevatorGameInput {
                collect_tips: collect_tips->0,
                append_floor: append_floor->0,
                append_elevator: append_elevator->0,
                add_elevator_capacity: add_elevator_capacity->0,
                add_floor_capacity: add_floor_capacity->0,
            },
        )
    } else {
        None
    }
}

/// The command that a JSON text describes: an object with the five boolean
/// members `collect_tips`, `append_floor`, `append_elevator`,
/// `add_elevator_capacity` and `add_floor_capacity`.  A text with a fraction
/// of more than `FRACTION_DIGITS_LIMIT` digits is refused before parsing.
pub open spec fn input_of_json(text: Seq<char>) -> Option<ElevatorGameInput> {
    if has_long_fraction(vstd::utf8::encode_utf8(text)) {
        None
    } else {
        match parse_of(text) {
            None => None,
            Some(v) => input_of_fields(
                bool_of(member_of(v, "collect_tips"@)),
                bool_of(member_of(v, "append_floor"@)),
                bool_of(member_of(v, "append_elevator"@)),
                bool_of(member_of(v, "add_elevator_capacity"@)),
                bool_of(member_of(v, "add_floor_capacity"@)),
            ),
        }
    }
}

impl ElevatorGameInput {
    pub fn new(
        collect_tips: bool,
        append_floor: bool,
        append_elevator: bool,
        add_elevator_capacity: bool,
        add_floor_capacity: bool,
    ) -> (r: ElevatorGameInput)
        ensures
            r.collect_tips == collect_tips,
            r.append_floor == append_floor,
            r.append_elevator == append_elevator,
            r.add_elevator_capacity == add_elevator_capacity,
            r.add_floor_capacity == add_floor_capacity,
    {
        ElevatorGameInput {
            collect_tips,
            append_floor,
            append_elevator,
            add_elevator_capacity,
            add_floor_capacity,
        }
    }

    /// Builds a command from five looked-up flags; `None` where any flag is
    /// missing or was not a boolean.
    pub fn from_fields(
        collect_tips: Option<bool>,
        append_floor: Option<bool>,
        append_elevator: Option<bool>,
        add_elevator_capacity: Option<bool>,
        add_floor_capacity: Option<bool>,
    ) -> (r: Option<ElevatorGameInput>)
        ensures
            r == input_of_fields(
                collect_tips,
                append_floor,
                append_elevator,
                add_elevator_capacity,
                add_floor_capacity,
            ),
    {
        match (collect_tips, append_floor, append_elevator, add_elevator_capacity, add_floor_capacity) {
            (Some(c), Some(af), Some(ae), Some(ec), Some(fc)) => Some(
                ElevatorGameInput::new(c, af, ae, ec, fc),
            ),
            _ => None,
        }
    }

    /// Reads a command from its JSON text.  `None` where the text is not JSON, a
    /// flag is missing or not a boolean, or a number has a fraction longer than
    /// the parser reads safely; the whole command is then rejected.
    pub fn from_json(input: String) -> (r: Option<ElevatorGameInput>)
        ensures
            r == input_of_json(input@),
    {
        if find_long_fraction(input.as_str().as_bytes()) {
            return None;
        }
        match parse_text(input.as_str()) {
            None => None,
            Some(v) => {
                let c = member(&v, "collect_tips").as_bool();
                let af = member(&v, "append_floor").as_bool();
                let ae = member(&v, "append_elevator").as_bool();
                let ec = member(&v, "add_elevator_capacity").as_bool();
                let fc = member(&v, "add_floor_capacity").as_bool();
                ElevatorGameInput::from_fields(c, af, ae, ec, fc)
            },
        }
    }
}

} // verus!
