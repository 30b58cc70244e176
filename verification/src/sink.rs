//! What the store is asked to keep: samples, and the statements that
//! create a device's destination and append a sample to it.

use crate::codec::SampleValue;
use vstd::prelude::*;

verus! {

/// One reading of one tag of one device.
#[derive(Debug, PartialEq, Eq)]
pub struct Sample {
    pub device_name: String,
    pub tag_name: String,
    pub tag_description: String,
    /// Epoch seconds at which the read cycle of this sample began.
    pub timestamp: i64,
    pub value: SampleValue,
}

/// A sample as plain values.
pub struct SampleView {
    pub device_name: Seq<char>,
    pub tag_name: Seq<char>,
    pub tag_description: Seq<char>,
    pub timestamp: i64,
    pub value: SampleValue,
}

impl View for Sample {
    type V = SampleView;

    open spec fn view(&self) -> SampleView {
        SampleView {
            device_name: self.device_name@,
            tag_name: self.tag_name@,
            tag_description: self.tag_description@,
            timestamp: self.timestamp,
            value: self.value,
        }
    }
}

/// The words before the destination in the statement that creates it.
pub const CREATE_TABLE_HEAD: &'static str = "CREATE TABLE IF NOT EXISTS ";

/// The columns of a destination: a surrogate id, the timestamp in epoch
/// seconds, the tag's name and description, and the numeric value.
pub const CREATE_TABLE_COLUMNS: &'static str =
    " (id INTEGER PRIMARY KEY, timestamp INTEGER, tag TEXT NOT NULL, description TEXT NOT NULL, value REAL)";

/// The words before the destination in the statement that appends a sample.
pub const INSERT_HEAD: &'static str = "INSERT INTO ";

/// The columns that an appended sample fills, and the parameters that fill
/// them: the timestamp, the tag's name, its description and the value.
pub const INSERT_VALUES: &'static str =
    " (id, timestamp, tag, description, value) VALUES (NULL, ?1, ?2, ?3, ?4)";

/// How one character of a name is written inside a quoted identifier:
/// a double quote is written twice, every other character as it is.
pub open spec fn escaped_char(c: char) -> Seq<char> {
    if c == '"' {
        seq!['"', '"']
    } else {
        seq![c]
    }
}

/// The characters of `name`, each written as `escaped_char` says.
pub open spec fn escaped(name: Seq<char>) -> Seq<char>
    decreases name.len(),
{
    if name.len() == 0 {
        Seq::empty()
    } else {
        escaped(name.drop_last()) + escaped_char(name.last())
    }
}

/// `name` as a quoted identifier: its escaped characters between two
/// double quotes.
pub open spec fn quoted(name: Seq<char>) -> Seq<char> {
    seq!['"'] + escaped(name) + seq!['"']
}

/// The statement that creates, unless it exists, the destination of the
/// device called `device`.
pub open spec fn create_table_text(device: Seq<char>) -> Seq<char> {
    CREATE_TABLE_HEAD@ + quoted(device) + CREATE_TABLE_COLUMNS@
}

/// The statement that appends one sample to the destination of the device
/// called `device`.
pub open spec fn insert_text(device: Seq<char>) -> Seq<char> {
    INSERT_HEAD@ + quoted(device) + INSERT_VALUES@
}

/// How a reader of statements takes the inside of a quoted identifier from
/// the front of `text`: two double quotes in a row stand for one double
/// quote of the name, a single one closes the identifier. The result is
/// the name that was read and the text behind the closing quote, or
/// nothing where the identifier is not closed.
pub open spec fn read_quoted(text: Seq<char>) -> Option<(Seq<char>, Seq<char>)>
    decreases text.len(),
{
    if text.len() == 0 {
        None
    } else if text[0] != '"' {
        match read_quoted(text.skip(1)) {
            Some((name, rest)) => Some((seq![text[0]] + name, rest)),
            None => None,
        }
    } else if text.len() >= 2 && text[1] == '"' {
        match read_quoted(text.skip(2)) {
            Some((name, rest)) => Some((seq!['"'] + name, rest)),
            None => None,
        }
    } else {
        Some((Seq::empty(), text.skip(1)))
    }
}

/// Escaping goes character by character: the escaped form of two names
/// joined is the two escaped forms joined.
pub proof fn lemma_escaped_of_joined_names(front: Seq<char>, back: Seq<char>)
    ensures
        escaped(front + back) == escaped(front) + escaped(back),
    decreases back.len(),
{
    if back.len() == 0 {
        assert(front + back == front);
    } else {
        assert((front + back).drop_last() == front + back.drop_last());
        assert((front + back).last() == back.last());
        lemma_escaped_of_joined_names(front, back.drop_last());
    }
}

/// A quoted identifier is read back as the name it was made from, and is
/// closed by its own last quote and no earlier: whatever characters the
/// name holds, and whatever follows the identifier, as long as that does
/// not begin with a double quote. No name can end the identifier early
/// and pass for part of the statement around it.
pub proof fn lemma_quoted_name_reads_back(name: Seq<char>, rest: Seq<char>)
    requires
        rest.len() > 0 ==> rest[0] != '"',
    ensures
        (quoted(name) + rest)[0] == '"',
        read_quoted((quoted(name) + rest).skip(1)) == Some((name, rest)),
    decreases name.len(),
{
    let body = escaped(name) + seq!['"'] + rest;
    assert((quoted(name) + rest).skip(1) == body);
    if name.len() == 0 {
        assert(body.skip(1) == rest);
    } else {
        let tail = name.skip(1);
        assert(name == seq![name[0]] + tail);
        lemma_escaped_of_joined_names(seq![name[0]], tail);
        assert(escaped(seq![name[0]]) == escaped_char(name[0])) by {
            let one = seq![name[0]];
            assert(one.drop_last() == Seq::<char>::empty());
            assert(escaped(one.drop_last()) == Seq::<char>::empty());
            assert(Seq::<char>::empty() + escaped_char(one.last()) == escaped_char(name[0]));
        }
        lemma_quoted_name_reads_back(tail, rest);
        let tail_body = escaped(tail) + seq!['"'] + rest;
        assert((quoted(tail) + rest).skip(1) == tail_body);
        if name[0] == '"' {
            assert(body.skip(2) == tail_body);
        } else {
            assert(body.skip(1) == tail_body);
        }
    }
}

/// Both statements name their destination so that it is read back as the
/// device's name: behind the statement's opening words stands a quoted
/// identifier, a reader takes exactly `device` from it, and what follows
/// is the rest of the statement, the same for every device.
pub proof fn lemma_statements_name_their_device(device: Seq<char>)
    ensures
        read_quoted(create_table_text(device).skip(CREATE_TABLE_HEAD@.len() as int + 1)) == Some(
            (device, CREATE_TABLE_COLUMNS@),
        ),
        read_quoted(insert_text(device).skip(INSERT_HEAD@.len() as int + 1)) == Some(
            (device, INSERT_VALUES@),
        ),
{
    reveal_strlit(
        " (id INTEGER PRIMARY KEY, timestamp INTEGER, tag TEXT NOT NULL, description TEXT NOT NULL, value REAL)",
    );
    reveal_strlit(" (id, timestamp, tag, description, value) VALUES (NULL, ?1, ?2, ?3, ?4)");
    assert(CREATE_TABLE_COLUMNS@[0] == ' ');
    assert(INSERT_VALUES@[0] == ' ');
    lemma_quoted_name_reads_back(device, CREATE_TABLE_COLUMNS@);
    lemma_quoted_name_reads_back(device, INSERT_VALUES@);
    let created = quoted(device) + CREATE_TABLE_COLUMNS@;
    let inserted = quoted(device) + INSERT_VALUES@;
    assert(create_table_text(device).skip(CREATE_TABLE_HEAD@.len() as int + 1) == created.skip(1));
    assert(insert_text(device).skip(INSERT_HEAD@.len() as int + 1) == inserted.skip(1));
}

/// Appends to `out` the quoted identifier for `name`.
fn append_quoted(out: &mut String, name: &str)
    ensures
        final(out)@ == old(out)@ + quoted(name@),
{
    let ghost before = out@;
    let n: usize = name.unicode_len();
    out.append("\"");
    proof {
        reveal_strlit("\"");
        assert("\""@ == seq!['"']);
    }
    let mut i: usize = 0;
    while i < n
        invariant
            i <= n,
            n == name@.len(),
            out@ == before + seq!['"'] + escaped(name@.take(i as int)),
        decreases n - i,
    {
        let c = name.get_char(i);
        proof {
            assert(name@.take(i + 1).drop_last() == name@.take(i as int));
            assert(name@.take(i + 1).last() == c);
        }
        if c == '"' {
            out.append("\"\"");
            proof {
                reveal_strlit("\"\"");
                assert("\"\""@ == seq!['"', '"']);
            }
        } else {
            out.append(name.substring_char(i, i + 1));
            assert(name@.subrange(i as int, i + 1) == seq![c]);
        }
        i += 1;
    }
    out.append("\"");
    proof {
        assert(name@.take(n as int) == name@);
    }
}

/// Writes a device name as an identifier that the store reads as one name,
/// whatever characters it holds.
pub fn quote_identifier(name: &str) -> (identifier: String)
    ensures
        identifier@ == quoted(name@),
{
    let mut identifier = String::new();
    append_quoted(&mut identifier, name);
    identifier
}

/// The statement that creates the destination of a device unless it
/// exists.
pub fn create_table_statement(device_name: &str) -> (sql: String)
    ensures
        sql@ == create_table_text(device_name@),
{
    let mut sql = CREATE_TABLE_HEAD.to_owned();
    append_quoted(&mut sql, device_name);
    sql.append(CREATE_TABLE_COLUMNS);
    sql
}

/// The statement that appends one sample to the destination of a device.
pub fn insert_statement(device_name: &str) -> (sql: String)
    ensures
        sql@ == insert_text(device_name@),
{
    let mut sql = INSERT_HEAD.to_owned();
    append_quoted(&mut sql, device_name);
    sql.append(INSERT_VALUES);
    sql
}

impl Sample {
    /// The statement that appends this sample to its device's destination.
    pub fn insert_statement(&self) -> (sql: String)
        ensures
            sql@ == insert_text(self@.device_name),
    {
        insert_statement(self.device_name.as_str())
    }
}

} // verus!
