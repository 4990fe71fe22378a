//! The line that writes one point to the store: which characters are
//! escaped, how numbers are written, and in which order the parts stand.

use crate::services::sink::influx::{FieldValue, WriteQuery, WriteQueryView};
use crate::text::join;
use vstd::prelude::*;

verus! {

/// The numeral of one decimal digit.
pub open spec fn digit(d: nat) -> Seq<char> {
    if d == 0 {
        "0"@
    } else if d == 1 {
        "1"@
    } else if d == 2 {
        "2"@
    } else if d == 3 {
        "3"@
    } else if d == 4 {
        "4"@
    } else if d == 5 {
        "5"@
    } else if d == 6 {
        "6"@
    } else if d == 7 {
        "7"@
    } else if d == 8 {
        "8"@
    } else {
        "9"@
    }
}

/// A natural number in decimal notation, without leading zeros.
pub open spec fn decimal(n: nat) -> Seq<char>
    decreases n,
{
    if n < 10 {
        digit(n)
    } else {
        decimal(n / 10) + digit(n % 10)
    }
}

/// An integer in decimal notation, with a minus sign if it is negative.
pub open spec fn signed_decimal(n: int) -> Seq<char> {
    if n < 0 {
        "-"@ + decimal((-n) as nat)
    } else {
        decimal(n as nat)
    }
}

fn digit_text(d: u64) -> (text: &'static str)
    requires
        d < 10,
    ensures
        text@ == digit(d as nat),
{
    if d == 0 {
        "0"
    } else if d == 1 {
        "1"
    } else if d == 2 {
        "2"
    } else if d == 3 {
        "3"
    } else if d == 4 {
        "4"
    } else if d == 5 {
        "5"
    } else if d == 6 {
        "6"
    } else if d == 7 {
        "7"
    } else if d == 8 {
        "8"
    } else {
        "9"
    }
}

/// Writes a number in decimal notation.
pub fn decimal_text(n: u64) -> (text: String)
    ensures
        text@ == decimal(n as nat),
    decreases n,
{
    if n < 10 {
        digit_text(n).to_owned()
    } else {
        let mut text = decimal_text(n / 10);
        text.append(digit_text(n % 10));
        text
    }
}

/// Writes an integer in decimal notation.
pub fn signed_decimal_text(n: i64) -> (text: String)
    ensures
        text@ == signed_decimal(n as int),
{
    if n < 0 {
        let magnitude: u64 = ((-(n + 1)) as u64) + 1;
        join("-", decimal_text(magnitude).as_str())
    } else {
        decimal_text(n as u64)
    }
}

/// The characters that end a part of a line: the comma and the space
/// everywhere, and the equals sign in tags and in the names of fields.
pub open spec fn is_special(c: char, in_key: bool) -> bool {
    c == ',' || c == ' ' || (in_key && c == '=')
}

/// A text with a backslash before each of its special characters.
pub open spec fn escaped(text: Seq<char>, in_key: bool) -> Seq<char>
    decreases text.len(),
{
    if text.len() == 0 {
        Seq::empty()
    } else if is_special(text.last(), in_key) {
        escaped(text.drop_last(), in_key) + "\\"@ + seq![text.last()]
    } else {
        escaped(text.drop_last(), in_key) + seq![text.last()]
    }
}

/// Escapes a measurement (`in_key` false), or a tag or the name of a field
/// (`in_key` true).
pub fn escape(text: &str, in_key: bool) -> (out: String)
    ensures
        out@ == escaped(text@, in_key),
{
    let n = text.unicode_len();
    let mut out = String::new();
    let mut i: usize = 0;
    while i < n
        invariant
            i <= n,
            n == text@.len(),
            out@ == escaped(text@.take(i as int), in_key),
        decreases n - i,
    {
        let c = text.get_char(i);
        proof {
            let upto = text@.take(i + 1);
            assert(upto.drop_last() =~= text@.take(i as int));
            assert(upto.last() == text@[i as int]);
            assert(text@.subrange(i as int, i + 1) =~= seq![text@[i as int]]);
        }
        if c == ',' || c == ' ' || (in_key && c == '=') {
            out.append("\\");
        }
        out.append(text.substring_char(i, i + 1));
        i += 1;
    }
    proof {
        assert(text@.take(n as int) =~= text@);
    }
    out
}

/// The fields of a point, as values.
pub type Fields = Seq<(Seq<char>, FieldValue)>;

/// How many of the fields before position `at` are measurements.
pub open spec fn floats_before(fields: Fields, at: int) -> int
    decreases at,
{
    if at <= 0 {
        0
    } else if fields[at - 1].1 is Float {
        floats_before(fields, at - 1) + 1
    } else {
        floats_before(fields, at - 1)
    }
}

/// The count of measurements grows with the position.
pub proof fn lemma_floats_before_grows(fields: Fields, from: int, to: int)
    requires
        0 <= from <= to,
    ensures
        0 <= floats_before(fields, from) <= floats_before(fields, to) <= to,
    decreases to,
{
    if from < to {
        lemma_floats_before_grows(fields, from, to - 1);
    } else if to > 0 {
        lemma_floats_before_grows(fields, 0, to - 1);
    }
}

/// The value of the field at a position, as it is written: a measurement
/// is written as the number that was rendered for it, a count in decimal
/// notation with an `i` behind it.
pub open spec fn value_text(fields: Fields, numbers: Seq<Seq<char>>, at: int) -> Seq<char> {
    match fields[at].1 {
        FieldValue::Float(_) => numbers[floats_before(fields, at)],
        FieldValue::UnsignedInteger(count) => decimal(count as nat) + "i"@,
    }
}

/// The measurement and the first `upto` tags of a point: each tag after a
/// comma, as name, equals sign and value.
pub open spec fn series(
    measurement: Seq<char>,
    tags: Seq<(Seq<char>, Seq<char>)>,
    upto: int,
) -> Seq<char>
    decreases upto,
{
    if upto <= 0 {
        escaped(measurement, false)
    } else {
        series(measurement, tags, upto - 1) + ","@ + escaped(tags[upto - 1].0, true) + "="@
            + escaped(tags[upto - 1].1, true)
    }
}

/// The first `upto` fields of a point, with commas between them: each as
/// name, equals sign and value.
pub open spec fn values(fields: Fields, numbers: Seq<Seq<char>>, upto: int) -> Seq<char>
    decreases upto,
{
    if upto <= 0 {
        Seq::empty()
    } else if upto == 1 {
        escaped(fields[0].0, true) + "="@ + value_text(fields, numbers, 0)
    } else {
        values(fields, numbers, upto - 1) + ","@ + escaped(fields[upto - 1].0, true) + "="@
            + value_text(fields, numbers, upto - 1)
    }
}

/// The line of a point: the measurement with its tags, the fields, and the
/// timestamp, with one space between the three.
pub open spec fn line(query: WriteQueryView, numbers: Seq<Seq<char>>) -> Seq<char> {
    series(query.measurement, query.tags, query.tags.len() as int) + " "@ + values(
        query.fields,
        numbers,
        query.fields.len() as int,
    ) + " "@ + signed_decimal(query.timestamp as int)
}

/// What building the line of a point comes to: a point needs a field, and
/// every measurement needs its number; then the line is there.
pub open spec fn built(query: WriteQueryView, numbers: Seq<Seq<char>>) -> Result<
    Seq<char>,
    Seq<char>,
> {
    if query.fields.len() == 0 {
        Err("fields cannot be empty"@)
    } else if numbers.len() != floats_before(query.fields, query.fields.len() as int) {
        Err("every measurement needs its number"@)
    } else {
        Ok(line(query, numbers))
    }
}

/// Texts as values.
pub open spec fn texts_view(texts: Seq<String>) -> Seq<Seq<char>> {
    texts.map_values(|text: String| text@)
}

/// The result of building a line, as values.
pub open spec fn built_view(built: Result<String, String>) -> Result<Seq<char>, Seq<char>> {
    match built {
        Ok(line) => Ok(line@),
        Err(detail) => Err(detail@),
    }
}

impl WriteQuery {
    /// The measurements of the point, in the order of its fields.
    pub fn floats(&self) -> (floats: Vec<u32>)
        ensures
            floats@.len() == floats_before(self@.fields, self@.fields.len() as int),
            forall|at: int|
                0 <= at < self@.fields.len() && (#[trigger] self@.fields[at]).1 is Float
                    ==> self@.fields[at].1 == FieldValue::Float(
                    floats@[floats_before(self@.fields, at)],
                ),
    {
        let mut floats: Vec<u32> = Vec::new();
        let mut i: usize = 0;
        while i < self.fields.len()
            invariant
                i <= self.fields.len(),
                self@.fields.len() == self.fields.len(),
                floats@.len() == floats_before(self@.fields, i as int),
                forall|at: int|
                    0 <= at < i && (#[trigger] self@.fields[at]).1 is Float ==> self@.fields[at].1
                        == FieldValue::Float(floats@[floats_before(self@.fields, at)]),
            decreases self.fields.len() - i,
        {
            let ghost before = floats@;
            proof {
                assert(self@.fields[i as int].1 == self.fields@[i as int].1);
            }
            match self.fields[i].1 {
                FieldValue::Float(bits) => {
                    floats.push(bits);
                },
                FieldValue::UnsignedInteger(_) => {},
            }
            proof {
                assert forall|at: int|
                    0 <= at < i + 1 && (#[trigger] self@.fields[at]).1 is Float implies self@.fields[at].1
                    == FieldValue::Float(floats@[floats_before(self@.fields, at)]) by {
                    lemma_floats_before_grows(self@.fields, at + 1, i + 1);
                    lemma_floats_before_grows(self@.fields, 0, at);
                    if at < i {
                        lemma_floats_before_grows(self@.fields, at + 1, i as int);
                        assert(floats@[floats_before(self@.fields, at)] == before[floats_before(
                            self@.fields,
                            at,
                        )]);
                    }
                }
            }
            i += 1;
        }
        floats
    }

    /// The line that writes the point, given the number that was rendered
    /// for each of its measurements, in their order.
    pub fn build(&self, numbers: &Vec<String>) -> (built: Result<String, String>)
        ensures
            built_view(built) == self::built(self@, texts_view(numbers@)),
    {
        let ghost fields = self@.fields;
        let ghost tags = self@.tags;
        let ghost texts = texts_view(numbers@);
        if self.fields.len() == 0 {
            return Err("fields cannot be empty".to_owned());
        }
        let mut count: usize = 0;
        let mut i: usize = 0;
        while i < self.fields.len()
            invariant
                i <= self.fields.len(),
                fields == self@.fields,
                fields.len() == self.fields.len(),
                count == floats_before(fields, i as int),
                count <= i,
            decreases self.fields.len() - i,
        {
            proof {
                assert(fields[i as int].1 == self.fields@[i as int].1);
            }
            match self.fields[i].1 {
                FieldValue::Float(_) => {
                    count += 1;
                },
                FieldValue::UnsignedInteger(_) => {},
            }
            i += 1;
        }
        if numbers.len() != count {
            return Err("every measurement needs its number".to_owned());
        }
        let mut out = escape(self.measurement.as_str(), false);
        let mut t: usize = 0;
        while t < self.tags.len()
            invariant
                t <= self.tags.len(),
                tags == self@.tags,
                tags.len() == self.tags.len(),
                out@ == series(self@.measurement, tags, t as int),
            decreases self.tags.len() - t,
        {
            proof {
                assert(tags[t as int] == (self.tags@[t as int].0@, self.tags@[t as int].1@));
            }
            out.append(",");
            out.append(escape(self.tags[t].0.as_str(), true).as_str());
            out.append("=");
            out.append(escape(self.tags[t].1.as_str(), true).as_str());
            t += 1;
        }
        out.append(" ");
        let ghost head = out@;
        let mut used: usize = 0;
        let mut f: usize = 0;
        while f < self.fields.len()
            invariant
                f <= self.fields.len(),
                fields == self@.fields,
                fields.len() == self.fields.len(),
                texts == texts_view(numbers@),
                numbers@.len() == floats_before(fields, fields.len() as int),
                used == floats_before(fields, f as int),
                out@ == head + values(fields, texts, f as int),
            decreases self.fields.len() - f,
        {
            proof {
                assert(fields[f as int] == (self.fields@[f as int].0@, self.fields@[f as int].1));
                lemma_floats_before_grows(fields, f + 1, fields.len() as int);
                assert(out@ + Seq::<char>::empty() =~= out@);
            }
            let ghost before = out@;
            if f > 0 {
                out.append(",");
            }
            out.append(escape(self.fields[f].0.as_str(), true).as_str());
            out.append("=");
            match self.fields[f].1 {
                FieldValue::Float(_) => {
                    proof {
                        assert(texts[used as int] == numbers@[used as int]@);
                    }
                    out.append(numbers[used].as_str());
                    used += 1;
                },
                FieldValue::UnsignedInteger(count) => {
                    out.append(decimal_text(count).as_str());
                    out.append("i");
                },
            }
            proof {
                let name = escaped(fields[f as int].0, true);
                let value = value_text(fields, texts, f as int);
                if f == 0 {
                    assert(values(fields, texts, 0) =~= Seq::<char>::empty());
                    assert(out@ =~= head + (name + "="@ + value));
                } else {
                    assert(out@ =~= head + (values(fields, texts, f as int) + ","@ + name + "="@
                        + value));
                }
            }
            f += 1;
        }
        out.append(" ");
        out.append(signed_decimal_text(self.timestamp).as_str());
        proof {
            assert(out@ =~= line(self@, texts));
        }
        Ok(out)
    }
}

} // verus!
