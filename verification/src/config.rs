//! Configuration values: their defaults, the size strings that give a
//! topic's page size, and the rules by which configuration files found
//! under a path are put together.

use vstd::prelude::*;

verus! {

/// An IP address as plain values: four octets or eight 16-bit segments.
#[derive(Clone, Copy, Debug)]
pub enum IpAddress {
    V4([u8; 4]),
    V6([u16; 8]),
}

/// One topic of the broker.
#[derive(Debug)]
pub struct Topic {
    pub name: String,
    /// Size of one page, in bytes.
    pub page_size: u32,
    pub max_pages: usize,
}

/// The broker's configuration.
#[derive(Debug)]
pub struct Config {
    pub ip: IpAddress,
    pub port: u16,
    pub data_dir: String,
    pub topic: Vec<Topic>,
}

/// The port used when the configuration names none.
pub open spec fn spec_default_port() -> u16 {
    8085
}

impl Config {
    /// The loopback address `127.0.0.1`.
    pub fn default_ip() -> (ip: IpAddress)
        ensures
            ip matches IpAddress::V4(octets) && octets@ == seq![127u8, 0u8, 0u8, 1u8],
    {
        let ip = IpAddress::V4([127u8, 0u8, 0u8, 1u8]);
        proof {
            if let IpAddress::V4(octets) = ip {
                assert(octets@ =~= seq![127u8, 0u8, 0u8, 1u8]);
            }
        }
        ip
    }

    pub fn default_port() -> (port: u16)
        ensures
            port == spec_default_port(),
    {
        8085
    }

    pub fn default_data_dir() -> (dir: String)
        ensures
            dir@ == "/tmp/franz-data"@,
    {
        "/tmp/franz-data".to_owned()
    }

    pub fn default_topic() -> (topics: Vec<Topic>)
        ensures
            topics@.len() == 0,
    {
        Vec::new()
    }
}


impl Default for Config {
    /// The configuration that an empty file gives: the loopback address,
    /// the default port and data directory, and no topic.
    fn default() -> (config: Self)
        ensures
            config.ip matches IpAddress::V4(octets) && octets@ == seq![127u8, 0u8, 0u8, 1u8],
            config.port == spec_default_port(),
            config.data_dir@ == "/tmp/franz-data"@,
            config.topic@.len() == 0,
    {
        Config {
            ip: Config::default_ip(),
            port: Config::default_port(),
            data_dir: Config::default_data_dir(),
            topic: Config::default_topic(),
        }
    }
}

/// What `parse_size::parse_size` gives for a text: the number of bytes
/// that it denotes, or nothing where the text is no size.
pub uninterp spec fn parsed_size(text: Seq<char>) -> Option<u64>;

/// Whether `parse_size`, scanning a text from `i` with its mantissa at
/// `mantissa` (in `phase` 0 before any digit, 1 in the integer part, 2 in
/// the fraction), meets a digit that does not fit in the mantissa while the
/// mantissa is already `u64::MAX` and the digit rounds up: the rounding
/// step then overflows. Spaces and `_` are skipped; any other character
/// ends the part of the text where the mantissa is built.
pub open spec fn rounding_overflow_from(text: Seq<char>, i: int, phase: int, mantissa: int) -> bool
    decreases text.len() - i,
{
    if i < 0 || i >= text.len() {
        false
    } else {
        let c = text[i];
        if '0' <= c <= '9' {
            let next = mantissa * 10 + (c as int - 48);
            if next <= u64::MAX {
                rounding_overflow_from(text, i + 1, if phase == 0 { 1 } else { phase }, next)
            } else {
                mantissa == u64::MAX && c as int - 48 >= 5
            }
        } else if c == '_' || c == ' ' {
            rounding_overflow_from(text, i + 1, phase, mantissa)
        } else if c == '.' && phase == 1 {
            rounding_overflow_from(text, i + 1, 2, mantissa)
        } else {
            false
        }
    }
}

/// The texts on which `parse_size` returns: shorter than 2^31 characters
/// (its digit counter is an `i32`) and without a digit that rounds a
/// mantissa of `u64::MAX` up.
pub open spec fn size_text_ok(text: Seq<char>) -> bool {
    text.len() < 0x8000_0000 && !rounding_overflow_from(text, 0, 0, 0)
}

/// Whether `parse_size` can be called on a text: see `size_text_ok`.
pub fn size_text_supported(value: &str) -> (ok: bool)
    ensures
        ok == size_text_ok(value@),
{
    let len = value.unicode_len();
    if len >= 0x8000_0000 {
        return false;
    }
    let mut i: usize = 0;
    let mut phase: u8 = 0;
    let mut mantissa: u64 = 0;
    while i < len
        invariant
            len == value@.len(),
            len < 0x8000_0000,
            i <= len,
            phase <= 2,
            rounding_overflow_from(value@, 0, 0, 0) == rounding_overflow_from(
                value@,
                i as int,
                phase as int,
                mantissa as int,
            ),
        decreases len - i,
    {
        let c = value.get_char(i);
        assert(c == value@[i as int]);
        if '0' <= c && c <= '9' {
            let d: u64 = (c as u32 - 48) as u64;
            assert(d == c as int - 48);
            if mantissa <= (0xffff_ffff_ffff_ffffu64 - d) / 10 {
                assert(mantissa * 10 + d <= u64::MAX) by (nonlinear_arith)
                    requires
                        mantissa <= (0xffff_ffff_ffff_ffffu64 - d) / 10,
                        d <= 9,
                ;
                mantissa = mantissa * 10 + d;
                if phase == 0 {
                    phase = 1;
                }
            } else {
                assert(mantissa * 10 + d > u64::MAX) by (nonlinear_arith)
                    requires
                        mantissa > (0xffff_ffff_ffff_ffffu64 - d) / 10,
                        d <= 9,
                ;
                return !(mantissa == 0xffff_ffff_ffff_ffffu64 && d >= 5);
            }
        } else if c == '_' || c == ' ' {
        } else if c == '.' && phase == 1 {
            phase = 2;
        } else {
            assert(!('0' <= c <= '9'));
            assert(!rounding_overflow_from(value@, i as int, phase as int, mantissa as int));
            return true;
        }
        i = i + 1;
    }
    true
}

/// Calls `parse_size::parse_size` with its default configuration. Trusted:
/// the result is `parsed_size` of the text, a failure taken as `None`.
/// The call is made only on texts where `parse_size` returns (in builds
/// with overflow checks, its rounding step and its digit counter can
/// overflow on the others).
#[verifier::external_body]
fn parse_size_of(text: &str) -> (size: Option<u64>)
    requires
        size_text_ok(text@),
    ensures
        size == parsed_size(text@),
{
    parse_size::parse_size(text).ok()
}

/// The page size that a parsed size gives: the size itself where it fits
/// in 32 bits, and nothing otherwise.
pub open spec fn page_size_of(parsed: Option<u64>) -> Option<u32> {
    match parsed {
        Some(bytes) => if bytes <= u32::MAX {
            Some(bytes as u32)
        } else {
            None
        },
        None => None,
    }
}

/// Turns the result of parsing a size text into a page size.
pub fn page_size_from_parsed(parsed: Option<u64>) -> (page_size: Option<u32>)
    ensures
        page_size == page_size_of(parsed),
{
    match parsed {
        Some(bytes) => if bytes <= 0xffff_ffffu64 {
            Some(bytes as u32)
        } else {
            None
        },
        None => None,
    }
}

/// Reads a topic's page size from a size text such as `"1 GiB"` or
/// `"240000"`. The text must denote a size that fits in 32 bits, and must
/// be one that `parse_size` returns on: on any other text the
/// configuration is refused (see `try_byte_from_string`).
pub fn byte_from_string(value: &str) -> (page_size: u32)
    requires
        size_text_ok(value@),
        page_size_of(parsed_size(value@)) is Some,
    ensures
        page_size_of(parsed_size(value@)) == Some(page_size),
{
    page_size_from_parsed(parse_size_of(value)).unwrap()
}

/// Reads a topic's page size from a size text where it can: `None` where
/// `parse_size` cannot be called on the text, where the text is no size,
/// or where the size does not fit in 32 bits, which are the texts that
/// `byte_from_string` does not take.
pub fn try_byte_from_string(value: &str) -> (page_size: Option<u32>)
    ensures
        page_size == (if size_text_ok(value@) {
            page_size_of(parsed_size(value@))
        } else {
            None
        }),
{
    if !size_text_supported(value) {
        return None;
    }
    match page_size_from_parsed(parse_size_of(value)) {
        Some(_) => Some(byte_from_string(value)),
        None => None,
    }
}

/// The page size given as a plain number of bytes, such as
/// `page_size = 240_000`: the number itself where it fits in 32 bits.
pub fn page_size_from_integer(bytes: u64) -> (page_size: Option<u32>)
    ensures
        page_size == page_size_of(Some(bytes)),
{
    page_size_from_parsed(Some(bytes))
}

/// How a path found while gathering configuration text is treated.
#[derive(Clone, Copy, Debug, PartialEq, Eq, Structural)]
pub enum SourceKind {
    /// A directory: the text of each of its entries is gathered in turn.
    Directory,
    /// A file whose extension is `toml`: its whole text is read.
    TomlFile,
    /// Anything else: it adds no text.
    Ignored,
}

pub open spec fn spec_source_kind(is_dir: bool, extension: Option<Seq<char>>) -> SourceKind {
    if is_dir {
        SourceKind::Directory
    } else if extension == Some("toml"@) {
        SourceKind::TomlFile
    } else {
        SourceKind::Ignored
    }
}

/// Decides how a path is treated, from whether it is a directory and from
/// its extension (`None` where it has none).
pub fn source_kind(is_dir: bool, extension: &Option<String>) -> (kind: SourceKind)
    ensures
        kind == spec_source_kind(is_dir, match extension {
            Some(ext) => Some(ext@),
            None => None,
        }),
{
    if is_dir {
        return SourceKind::Directory;
    }
    match extension {
        Some(ext) => {
            let toml = "toml".to_owned();
            if *ext == toml {
                SourceKind::TomlFile
            } else {
                SourceKind::Ignored
            }
        },
        None => SourceKind::Ignored,
    }
}

/// The text of a directory from the texts of its entries, in order: an
/// entry that could not be read (`None`) adds nothing.
pub open spec fn joined_sources(parts: Seq<Option<String>>) -> Seq<char>
    decreases parts.len(),
{
    if parts.len() == 0 {
        Seq::empty()
    } else {
        joined_sources(parts.drop_last()) + match parts.last() {
            Some(text) => text@,
            None => Seq::empty(),
        }
    }
}

/// Puts the texts of a directory's entries together, skipping those that
/// could not be read.
pub fn join_sources(parts: &Vec<Option<String>>) -> (text: String)
    ensures
        text@ == joined_sources(parts@),
{
    let mut text = String::new();
    let mut i: usize = 0;
    while i < parts.len()
        invariant
            i <= parts.len(),
            text@ == joined_sources(parts@.take(i as int)),
        decreases parts.len() - i,
    {
        assert(parts@.take(i + 1).drop_last() =~= parts@.take(i as int));
        match &parts[i] {
            Some(part) => text.append(part.as_str()),
            None => {},
        }
        i = i + 1;
    }
    assert(parts@.take(parts.len() as int) =~= parts@);
    text
}

/// The commented topic that an example configuration file ends with.
pub open spec fn example_topic_text() -> Seq<char> {
    "\n\n# [[topic]]\n# name = \"example_topic\"\n# page_size = \"1 GiB\"\n# max_pages = 16"@
}

/// The commented example topic, as text.
pub fn example_topic_hint() -> (hint: &'static str)
    ensures
        hint@ == example_topic_text(),
{
    "\n\n# [[topic]]\n# name = \"example_topic\"\n# page_size = \"1 GiB\"\n# max_pages = 16"
}

/// The text of an example configuration file: the serialised default
/// configuration followed by a commented example topic.
pub fn example_config_contents(serialized: &str) -> (contents: String)
    ensures
        contents@ == serialized@ + example_topic_text(),
{
    let mut contents = serialized.to_owned();
    contents.append(example_topic_hint());
    contents
}


/// The text gathered from a list of entries is the text of its first part
/// followed by that of the rest: a directory's text does not depend on how
/// its entries are grouped.
pub proof fn joined_sources_append(first: Seq<Option<String>>, rest: Seq<Option<String>>)
    ensures
        joined_sources(first + rest) == joined_sources(first) + joined_sources(rest),
    decreases rest.len(),
{
    if rest.len() == 0 {
        assert(first + rest =~= first);
        assert(joined_sources(first) + Seq::<char>::empty() =~= joined_sources(first));
    } else {
        joined_sources_append(first, rest.drop_last());
        assert((first + rest).drop_last() =~= first + rest.drop_last());
        assert((first + rest).last() == rest.last());
        let tail = match rest.last() {
            Some(text) => text@,
            None => Seq::<char>::empty(),
        };
        assert(joined_sources(first) + joined_sources(rest.drop_last()) + tail =~= joined_sources(
            first,
        ) + (joined_sources(rest.drop_last()) + tail));
    }
}


// ---------------------------------------------------------------------
// What the page size, the path kinds and the joined text are.
// ---------------------------------------------------------------------

/// A parsed size is a page size exactly when it fits in 32 bits, and it is
/// then that very number of bytes; nothing parsed gives no page size.
pub proof fn page_size_is_the_size_when_it_fits(bytes: u64)
    ensures
        bytes <= u32::MAX ==> page_size_of(Some(bytes)) == Some(bytes as u32),
        bytes <= u32::MAX ==> page_size_of(Some(bytes)).unwrap() as int == bytes as int,
        bytes > u32::MAX ==> page_size_of(Some(bytes)) is None,
        page_size_of(None) is None,
{
}

/// Every directory is walked, whatever its name's extension; a path that
/// is no directory is read exactly when its extension is `toml`, and is
/// otherwise ignored.
pub proof fn path_kinds(extension: Option<Seq<char>>)
    ensures
        spec_source_kind(true, extension) == SourceKind::Directory,
        spec_source_kind(false, extension) == SourceKind::TomlFile <==> extension == Some(
            "toml"@,
        ),
        spec_source_kind(false, extension) != SourceKind::Directory,
        extension != Some("toml"@) ==> spec_source_kind(false, extension)
            == SourceKind::Ignored,
{
}

/// No entry gives no text; a readable entry gives its whole text, and an
/// unreadable one nothing. With `joined_sources_append` this makes the
/// text of a directory the plain concatenation of its readable entries.
pub proof fn single_source_texts(text: String)
    ensures
        joined_sources(Seq::empty()) == Seq::<char>::empty(),
        joined_sources(seq![Some(text)]) == text@,
        joined_sources(seq![None::<String>]) == Seq::<char>::empty(),
{
    assert(seq![Some(text)].drop_last() =~= Seq::<Option<String>>::empty());
    assert(seq![None::<String>].drop_last() =~= Seq::<Option<String>>::empty());
    assert(Seq::<char>::empty() + text@ =~= text@);
}

/// Appending an entry to a list adds its whole text, if readable, to the
/// end of the list's text.
pub proof fn joined_sources_push(parts: Seq<Option<String>>, entry: Option<String>)
    ensures
        joined_sources(parts.push(entry)) == joined_sources(parts) + match entry {
            Some(text) => text@,
            None => Seq::<char>::empty(),
        },
{
    assert(parts.push(entry).drop_last() =~= parts);
}

spec fn ten_to(n: nat) -> int
    decreases n,
{
    if n == 0 {
        1
    } else {
        10 * ten_to((n - 1) as nat)
    }
}

proof fn lemma_ten_to_grows(i: nat, j: nat)
    requires
        i <= j,
    ensures
        1 <= ten_to(i) <= ten_to(j),
    decreases j,
{
    if j > 0 {
        if i < j {
            lemma_ten_to_grows(i, (j - 1) as nat);
        } else {
            lemma_ten_to_grows((i - 1) as nat, (j - 1) as nat);
        }
    }
}

proof fn lemma_short_scan(text: Seq<char>, i: int, phase: int, mantissa: int)
    requires
        0 <= i,
        text.len() <= 20,
        0 <= mantissa < ten_to(i as nat),
    ensures
        !rounding_overflow_from(text, i, phase, mantissa),
    decreases text.len() - i,
{
    if i < text.len() {
        let c = text[i];
        assert(ten_to((i + 1) as nat) == 10 * ten_to(i as nat));
        lemma_ten_to_grows(i as nat, 19);
        assert(ten_to(19) == 10000000000000000000) by {
            reveal_with_fuel(ten_to, 20);
        }
        if '0' <= c <= '9' {
            let next = mantissa * 10 + (c as int - 48);
            if next <= u64::MAX {
                lemma_short_scan(text, i + 1, if phase == 0 { 1 } else { phase }, next);
            }
        } else if c == '_' || c == ' ' {
            lemma_short_scan(text, i + 1, phase, mantissa);
        } else if c == '.' && phase == 1 {
            lemma_short_scan(text, i + 1, 2, mantissa);
        }
    }
}

/// `parse_size` can be called on every text of at most 20 characters: a
/// mantissa of `u64::MAX` takes 20 digits, and a digit more to round it.
/// On such a text, in particular any plain decimal number up to
/// `u32::MAX`, `try_byte_from_string` gives the parsed size's page size.
pub proof fn short_size_texts_are_supported(text: Seq<char>)
    requires
        text.len() <= 20,
    ensures
        size_text_ok(text),
{
    lemma_short_scan(text, 0, 0, 0);
}

/// A text that starts with the twenty digits of `u64::MAX` followed by a
/// digit of 5 or more is one that `parse_size` cannot take, whatever
/// follows.
pub proof fn rounding_past_u64_max_is_refused(digit: char, rest: Seq<char>)
    requires
        '5' <= digit <= '9',
    ensures
        !size_text_ok(
            seq!['1', '8', '4', '4', '6', '7', '4', '4', '0', '7', '3', '7', '0', '9', '5', '5', '1', '6', '1', '5']
                + seq![digit] + rest,
        ),
{
    let text = seq!['1', '8', '4', '4', '6', '7', '4', '4', '0', '7', '3', '7', '0', '9', '5', '5', '1', '6', '1', '5']
        + seq![digit] + rest;
    reveal_with_fuel(rounding_overflow_from, 22);
    assert(text[0] == '1' && text[1] == '8' && text[2] == '4' && text[3] == '4' && text[4] == '6');
    assert(text[5] == '7' && text[6] == '4' && text[7] == '4' && text[8] == '0' && text[9] == '7');
    assert(text[10] == '3' && text[11] == '7' && text[12] == '0' && text[13] == '9' && text[14] == '5');
    assert(text[15] == '5' && text[16] == '1' && text[17] == '6' && text[18] == '1' && text[19] == '5');
    assert(text[20] == digit);
}

} // verus!
