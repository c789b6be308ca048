//! EXIF tags: reading them with `rexif`, and what the library keeps of them.
use crate::error::SourceFormat;
use vstd::prelude::*;

verus! {

/// The code of a tag that the EXIF reader has no name for.
pub const TAG_UNKNOWN: u32 = 0xffff;

/// The code of the orientation tag.
pub const TAG_ORIENTATION: u32 = 0x0112;

/// One EXIF entry, as plain values.
pub struct ExifField {
    /// The numeric code of the tag.
    pub tag: u32,
    /// The tag's name.
    pub name: String,
    /// The entry's value in readable form.
    pub text: String,
    /// The entry's value where it is a list of 16-bit unsigned integers.
    pub shorts: Option<Vec<u16>>,
}

/// What an `ExifField` holds.
pub ghost struct ExifFieldView {
    pub tag: int,
    pub name: Seq<char>,
    pub text: Seq<char>,
    pub shorts: Option<Seq<u16>>,
}

impl View for ExifField {
    type V = ExifFieldView;

    open spec fn view(&self) -> ExifFieldView {
        ExifFieldView {
            tag: self.tag as int,
            name: self.name@,
            text: self.text@,
            shorts: match self.shorts {
                Some(v) => Some(v@),
                None => None,
            },
        }
    }
}

/// What a list of entries holds.
pub open spec fn fields_view(fields: Seq<ExifField>) -> Seq<ExifFieldView> {
    fields.map_values(|f: ExifField| f@)
}

/// The entries that `rexif::parse_buffer_quiet` reads from a file's bytes,
/// `None` where it reports an error.
pub uninterp spec fn exif_fields(bytes: Seq<u8>) -> Option<Seq<ExifFieldView>>;

/// `rexif::parse_buffer_quiet`: the EXIF entries of a JPEG or TIFF file in
/// the order of the file, each with the code and the name of its tag, its
/// readable value and, where the value is a list of 16-bit unsigned integers,
/// that list. `None` where the reader reports an error.
#[verifier::external_body]
pub(crate) fn read_exif(bytes: &[u8]) -> (out: Option<Vec<ExifField>>)
    ensures
        out is Some <==> exif_fields(bytes@) is Some,
        out matches Some(v) ==> Some(fields_view(v@)) == exif_fields(bytes@),
{
    let data = rexif::parse_buffer_quiet(bytes).0.ok()?;
    Some(data.entries.iter().map(|e| ExifField {
        tag: e.tag as u32,
        name: e.tag.to_string(),
        text: e.value_more_readable.to_string(),
        shorts: match &e.value {
            rexif::TagValue::U16(v) => Some(v.clone()),
            _ => None,
        },
    }).collect())
}

/// A tag name with its readable value.
pub struct ExifPair {
    pub name: String,
    pub text: String,
}

/// The mapping that a list of pairs stands for.
pub open spec fn pairs_map(pairs: Seq<ExifPair>) -> Map<Seq<char>, Seq<char>>
    decreases pairs.len(),
{
    if pairs.len() == 0 {
        Map::empty()
    } else {
        pairs_map(pairs.drop_last()).insert(pairs.last().name@, pairs.last().text@)
    }
}

/// No name occurs twice in the list.
pub open spec fn distinct_names(pairs: Seq<ExifPair>) -> bool {
    forall|i: int, j: int| 0 <= i < j < pairs.len() ==> pairs[i].name@ != pairs[j].name@
}

/// The mapping from tag name to readable value that a list of entries
/// gives: entries with an unknown tag are left out, and of two entries with
/// one name the later one counts.
pub open spec fn exif_map(fields: Seq<ExifFieldView>) -> Map<Seq<char>, Seq<char>>
    decreases fields.len(),
{
    if fields.len() == 0 {
        Map::empty()
    } else if fields.last().tag == TAG_UNKNOWN {
        exif_map(fields.drop_last())
    } else {
        exif_map(fields.drop_last()).insert(fields.last().name, fields.last().text)
    }
}

/// The orientation that a list of entries gives: the first number of the
/// first entry with the orientation tag, where that entry holds 16-bit
/// unsigned integers and at least one of them.
pub open spec fn exif_orientation(fields: Seq<ExifFieldView>) -> Option<u16>
    decreases fields.len(),
{
    if fields.len() == 0 {
        None
    } else if fields.first().tag == TAG_ORIENTATION {
        match fields.first().shorts {
            Some(v) => if v.len() > 0 {
                Some(v[0])
            } else {
                None
            },
            None => None,
        }
    } else {
        exif_orientation(fields.drop_first())
    }
}

/// Only JPEG and TIFF containers carry EXIF.
pub open spec fn carries_exif(format: SourceFormat) -> bool {
    format == SourceFormat::Jpeg || format == SourceFormat::Tiff
}

/// The tags and the orientation of a file: those of its entries where the
/// container carries EXIF and the reader reports no error, else none.
pub open spec fn spec_parse_exif(bytes: Seq<u8>, format: SourceFormat) -> Option<
    (Map<Seq<char>, Seq<char>>, Option<u16>),
> {
    if carries_exif(format) {
        match exif_fields(bytes) {
            Some(fields) => Some((exif_map(fields), exif_orientation(fields))),
            None => None,
        }
    } else {
        None
    }
}

/// Replacing the value of one pair replaces the value under that name.
proof fn lemma_pairs_map_update(pairs: Seq<ExifPair>, i: int, pair: ExifPair)
    requires
        0 <= i < pairs.len(),
        distinct_names(pairs),
        pair.name@ == pairs[i].name@,
    ensures
        pairs_map(pairs.update(i, pair)) == pairs_map(pairs).insert(pair.name@, pair.text@),
        distinct_names(pairs.update(i, pair)),
    decreases pairs.len(),
{
    let updated = pairs.update(i, pair);
    if i == pairs.len() - 1 {
        assert(updated.drop_last() == pairs.drop_last());
        assert(pairs_map(updated) == pairs_map(pairs).insert(pair.name@, pair.text@));
    } else {
        lemma_pairs_map_update(pairs.drop_last(), i, pair);
        assert(updated.drop_last() == pairs.drop_last().update(i, pair));
        assert(updated.last() == pairs.last());
        assert(pairs.last().name@ != pair.name@);
        assert(pairs_map(updated) == pairs_map(pairs).insert(pair.name@, pair.text@));
    }
}

/// Puts `text` under `name`, in place of an earlier value of that name.
fn put_pair(pairs: &mut Vec<ExifPair>, name: String, text: String)
    requires
        distinct_names(old(pairs)@),
    ensures
        distinct_names(final(pairs)@),
        pairs_map(final(pairs)@) == pairs_map(old(pairs)@).insert(name@, text@),
{
    let mut i: usize = 0;
    while i < pairs.len()
        invariant
            i <= pairs.len(),
            *pairs == *old(pairs),
            distinct_names(pairs@),
            forall|k: int| 0 <= k < i ==> pairs[k].name@ != name@,
        decreases pairs.len() - i,
    {
        if pairs[i].name == name {
            let pair = ExifPair { name, text };
            proof {
                lemma_pairs_map_update(pairs@, i as int, pair);
            }
            pairs.set(i, pair);
            return ;
        }
        i += 1;
    }
    let ghost before = pairs@;
    pairs.push(ExifPair { name, text });
    assert(pairs@.drop_last() == before);
}

/// The orientation that the entries give.
fn find_orientation(fields: &Vec<ExifField>) -> (out: Option<u16>)
    ensures
        out == exif_orientation(fields_view(fields@)),
{
    let mut i: usize = 0;
    assert(fields_view(fields@).skip(0) == fields_view(fields@));
    while i < fields.len()
        invariant
            i <= fields.len(),
            exif_orientation(fields_view(fields@)) == exif_orientation(fields_view(fields@).skip(i as int)),
        decreases fields.len() - i,
    {
        let ghost rest = fields_view(fields@).skip(i as int);
        assert(rest.first() == fields[i as int]@);
        assert(rest.drop_first() == fields_view(fields@).skip(i + 1));
        if fields[i].tag == TAG_ORIENTATION {
            return match &fields[i].shorts {
                Some(v) => if v.len() > 0 {
                    Some(v[0])
                } else {
                    None
                },
                None => None,
            };
        }
        i += 1;
    }
    None
}

/// Reads the EXIF tags and the orientation of a file of the given format.
///
/// Only JPEG and TIFF containers carry EXIF; for every other format, and
/// where the reader reports an error, the result is `None`.
pub fn parse_exif(buf: &[u8], image_format: SourceFormat) -> (out: Option<(Vec<ExifPair>, Option<u16>)>)
    ensures
        out is Some <==> spec_parse_exif(buf@, image_format) is Some,
        out matches Some(found) ==> {
            &&& distinct_names(found.0@)
            &&& Some((pairs_map(found.0@), found.1)) == spec_parse_exif(buf@, image_format)
        },
{
    match image_format {
        SourceFormat::Jpeg | SourceFormat::Tiff => {},
        _ => {
            return None;
        },
    }
    let fields = match read_exif(buf) {
        Some(fields) => fields,
        None => {
            return None;
        },
    };
    let orientation = find_orientation(&fields);
    let mut pairs: Vec<ExifPair> = Vec::new();
    let mut i: usize = 0;
    assert(fields_view(fields@).take(0) == Seq::<ExifFieldView>::empty());
    while i < fields.len()
        invariant
            i <= fields.len(),
            distinct_names(pairs@),
            pairs_map(pairs@) == exif_map(fields_view(fields@).take(i as int)),
        decreases fields.len() - i,
    {
        let ghost next = fields_view(fields@).take(i + 1);
        assert(next.drop_last() == fields_view(fields@).take(i as int));
        assert(next.last() == fields[i as int]@);
        if fields[i].tag != TAG_UNKNOWN {
            put_pair(&mut pairs, fields[i].name.clone(), fields[i].text.clone());
        }
        i += 1;
    }
    assert(fields_view(fields@).take(fields.len() as int) == fields_view(fields@));
    Some((pairs, orientation))
}

} // verus!
