//! The saved form of the list: one record of one field for each text, in the
//! delimited format of the `csv` crate, without a header row.

use vstd::prelude::*;

verus! {

/// What `csv::Writer::write_record` writes for a record whose only field is
/// `field`, as the first record of a writer with the default settings; `None`
/// where the writer reports an error.
pub uninterp spec fn csv_record(field: Seq<char>) -> Option<Seq<u8>>;

/// The records that `csv::Reader::into_records` yields for `bytes`, in order,
/// read with the default settings but without a header row: the fields of a
/// record that was read, `None` for a record that the reader rejects.
pub uninterp spec fn csv_records(bytes: Seq<u8>) -> Seq<Option<Seq<Seq<char>>>>;

/// The text that stands for a record without a first field.
pub open spec fn placeholder() -> Seq<char> {
    "ERROR"@
}

/// The text that a record gives, if it gives one: its first field, or the
/// placeholder where it has no field at all; nothing for a rejected record.
pub open spec fn text_of(record: Option<Seq<Seq<char>>>) -> Option<Seq<char>> {
    match record {
        Some(fields) => Some(
            if fields.len() > 0 {
                fields.first()
            } else {
                placeholder()
            },
        ),
        None => None,
    }
}

/// The texts that a sequence of records gives, in the order of the records.
pub open spec fn texts_of(records: Seq<Option<Seq<Seq<char>>>>) -> Seq<Seq<char>> {
    records.filter_map(|record: Option<Seq<Seq<char>>>| text_of(record))
}

/// Whether no line is missing.
pub open spec fn complete(lines: Seq<Option<Seq<u8>>>) -> bool {
    forall|i: int| 0 <= i < lines.len() ==> (#[trigger] lines[i]).is_some()
}

/// What the lines hold, line by line.
pub open spec fn contents(lines: Seq<Option<Seq<u8>>>) -> Seq<Seq<u8>> {
    Seq::new(lines.len(), |i: int| lines[i].unwrap())
}

/// The lines one after the other; nothing where a line is missing.
pub open spec fn joined(lines: Seq<Option<Seq<u8>>>) -> Option<Seq<u8>> {
    if complete(lines) {
        Some(contents(lines).flatten())
    } else {
        None
    }
}

/// The record of each text, in the order of the texts.
pub open spec fn records_of(texts: Seq<Seq<char>>) -> Seq<Option<Seq<u8>>> {
    Seq::new(texts.len(), |i: int| csv_record(texts[i]))
}

/// The saved form of `texts`: the records of the texts one after the other;
/// nothing where the record of some text cannot be written.
pub open spec fn encoding(texts: Seq<Seq<char>>) -> Option<Seq<u8>> {
    joined(records_of(texts))
}

/// The texts that the saved form `bytes` holds.
pub open spec fn decoding(bytes: Seq<u8>) -> Seq<Seq<char>> {
    texts_of(csv_records(bytes))
}

/// Writes the record of the one field `field` with a new `csv::Writer` over an
/// empty buffer (`Writer::from_writer`, `write_record`, `into_inner`) and
/// hands back what the buffer then holds. The result is what the writer does
/// with this field; `None` if the record or the buffer is refused.
#[verifier::external_body]
fn write_record(field: &str) -> (line: Option<Vec<u8>>)
    ensures
        match line {
            Some(bytes) => csv_record(field@) == Some(bytes@),
            None => csv_record(field@).is_none(),
        },
{
    let mut writer = csv::Writer::from_writer(Vec::new());
    match writer.write_record([field]) {
        Ok(()) => writer.into_inner().ok(),
        Err(_) => None,
    }
}

/// Reads `bytes` with a `csv::Reader` that expects no header row
/// (`ReaderBuilder::has_headers(false)`, `from_reader`, `into_records`) and
/// hands back every record in the order read: its fields as owned strings,
/// or `None` where the reader yields an error in its place.
#[verifier::external_body]
fn read_records(bytes: &[u8]) -> (records: Vec<Option<Vec<String>>>)
    ensures
        records.deep_view() == csv_records(bytes@),
{
    let reader = csv::ReaderBuilder::new().has_headers(false).from_reader(bytes);
    reader
        .into_records()
        .map(|read| read.ok().map(|record| record.iter().map(String::from).collect()))
        .collect()
}

/// Puts the lines one after the other. Where a line is missing there is no
/// result: nothing is handed back that holds only a part.
pub fn join_lines(lines: &Vec<Option<Vec<u8>>>) -> (bytes: Option<Vec<u8>>)
    ensures
        match bytes {
            Some(bytes) => joined(lines.deep_view()) == Some(bytes@),
            None => joined(lines.deep_view()).is_none(),
        },
{
    let mut bytes: Vec<u8> = Vec::new();
    let mut i: usize = 0;
    assert(contents(lines.deep_view().take(0)) =~= Seq::empty());
    while i < lines.len()
        invariant
            i <= lines.len(),
            complete(lines.deep_view().take(i as int)),
            bytes@ == contents(lines.deep_view().take(i as int)).flatten(),
        decreases lines.len() - i,
    {
        let ghost read = lines.deep_view().take(i as int);
        match &lines[i] {
            Some(line) => {
                assert(line.deep_view() =~= line@);
                let ghost before = bytes@;
                bytes.extend_from_slice(line.as_slice());
                assert(bytes@ =~= before + line@);
                proof {
                    let next = lines.deep_view().take(i + 1);
                    assert(next =~= read.push(Some(line@)));
                    assert(contents(next) =~= contents(read).push(line@));
                    contents(read).lemma_flatten_push(line@);
                }
            },
            None => {
                assert(lines.deep_view()[i as int].is_none());
                return None;
            },
        }
        i += 1;
    }
    assert(lines.deep_view().take(lines.len() as int) =~= lines.deep_view());
    Some(bytes)
}

/// The saved form of `texts`, if every text can be written: there is none
/// exactly where the record of some text is refused.
pub fn encode(texts: &Vec<String>) -> (bytes: Option<Vec<u8>>)
    ensures
        match bytes {
            Some(bytes) => encoding(texts.deep_view()) == Some(bytes@),
            None => encoding(texts.deep_view()).is_none(),
        },
        bytes.is_none() <==> exists|k: int|
            0 <= k < texts.len() && csv_record(#[trigger] texts.deep_view()[k]).is_none(),
{
    let mut lines: Vec<Option<Vec<u8>>> = Vec::new();
    let mut i: usize = 0;
    while i < texts.len()
        invariant
            i <= texts.len(),
            lines.len() == i,
            forall|k: int|
                0 <= k < i ==> #[trigger] lines.deep_view()[k] == csv_record(texts.deep_view()[k]),
        decreases texts.len() - i,
    {
        let ghost before = lines.deep_view();
        let line = write_record(texts[i].as_str());
        proof {
            if line.is_some() {
                assert(line.unwrap().deep_view() =~= line.unwrap()@);
            }
            assert(line.deep_view() == csv_record(texts.deep_view()[i as int]));
        }
        let ghost record = line.deep_view();
        lines.push(line);
        assert(lines.deep_view() =~= before.push(record));
        i += 1;
    }
    assert(lines.deep_view() =~= records_of(texts.deep_view()));
    proof {
        lemma_encoding_fails(texts.deep_view());
    }
    join_lines(&lines)
}

/// The texts that `records` give: of each record that was read its first
/// field, or the placeholder where it has none; a rejected record is passed
/// over.
pub fn texts_from_records(records: &Vec<Option<Vec<String>>>) -> (texts: Vec<String>)
    ensures
        texts.deep_view() == texts_of(records.deep_view()),
{
    let mut texts: Vec<String> = Vec::new();
    let mut i: usize = 0;
    assert(records.deep_view().take(0) =~= Seq::empty());
    while i < records.len()
        invariant
            i <= records.len(),
            texts.deep_view() == texts_of(records.deep_view().take(i as int)),
        decreases records.len() - i,
    {
        let ghost before = texts.deep_view();
        proof {
            records.deep_view().lemma_filter_map_take_succ(
                |record: Option<Seq<Seq<char>>>| text_of(record),
                i as int,
            );
        }
        match &records[i] {
            Some(fields) => {
                let text = if fields.len() > 0 {
                    fields[0].clone()
                } else {
                    "ERROR".to_string()
                };
                assert(Some(text@) == text_of(records.deep_view()[i as int]));
                texts.push(text);
                assert(texts.deep_view() =~= before + seq![text@]);
            },
            None => {},
        }
        i += 1;
    }
    assert(records.deep_view().take(records.len() as int) =~= records.deep_view());
    texts
}

/// The texts that the saved form `bytes` holds.
pub fn decode(bytes: &[u8]) -> (texts: Vec<String>)
    ensures
        texts.deep_view() == decoding(bytes@),
{
    let records = read_records(bytes);
    texts_from_records(&records)
}

/// There is no saved form exactly where the record of some text cannot be
/// written.
pub proof fn lemma_encoding_fails(texts: Seq<Seq<char>>)
    ensures
        encoding(texts).is_none() <==> exists|k: int|
            0 <= k < texts.len() && csv_record(#[trigger] texts[k]).is_none(),
{
    let records = records_of(texts);
    if encoding(texts).is_none() {
        let k = choose|k: int| 0 <= k < records.len() && !(#[trigger] records[k]).is_some();
        assert(csv_record(texts[k]).is_none());
    } else {
        assert forall|k: int| 0 <= k < texts.len() implies csv_record(
            #[trigger] texts[k],
        ).is_some() by {
            assert(records[k].is_some());
        }
    }
}

/// Records of one field each give back those fields: where reading the saved
/// form of `texts` yields one record for each text, in order, with the text
/// as its only field, the texts read are the texts written.
pub proof fn lemma_decoding_of_single_fields(texts: Seq<Seq<char>>, bytes: Seq<u8>)
    requires
        encoding(texts) == Some(bytes),
        csv_records(bytes) == Seq::new(texts.len(), |i: int| Some(seq![texts[i]])),
    ensures
        decoding(bytes) == texts,
{
    lemma_texts_of_single_fields(texts);
}

/// One record of one field for each text gives exactly the texts, in order.
pub proof fn lemma_texts_of_single_fields(texts: Seq<Seq<char>>)
    ensures
        texts_of(Seq::new(texts.len(), |i: int| Some(seq![texts[i]]))) == texts,
    decreases texts.len(),
{
    let records = Seq::new(texts.len(), |i: int| Some(seq![texts[i]]));
    if texts.len() > 0 {
        let shorter = texts.drop_last();
        lemma_texts_of_single_fields(shorter);
        assert(records.drop_last() =~= Seq::new(shorter.len(), |i: int| Some(seq![shorter[i]])));
        assert(text_of(records.last()) == Some(texts.last()));
        assert(texts_of(records) =~= texts_of(records.drop_last()) + seq![texts.last()]);
        assert(texts =~= shorter + seq![texts.last()]);
    } else {
        assert(texts_of(records) =~= texts);
    }
}

} // verus!
