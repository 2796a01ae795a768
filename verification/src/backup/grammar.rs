//! The grammar of backup file names:
//! `sealvault_backup_<scheme>_<os>_<timestamp>_<device_id>_<version>.zip`,
//! where scheme, os and device id are tokens, and timestamp and version are numbers.

use vstd::prelude::*;

use crate::text::{
    chars_of, is_digit, is_digit_char, is_number, is_token, is_token_char, is_token_character,
};

verus! {

/// What every backup file name starts with.
pub open spec fn prefix() -> Seq<char> {
    "sealvault_backup_"@
}

/// What every backup file name ends with.
pub open spec fn suffix() -> Seq<char> {
    ".zip"@
}

/// What stands between two fields.
pub open spec fn separator() -> Seq<char> {
    seq!['_']
}

/// The five fields of a backup file name, as they are written in it.
pub ghost struct FileNameParts {
    pub scheme: Seq<char>,
    pub os: Seq<char>,
    pub timestamp: Seq<char>,
    pub device_id: Seq<char>,
    pub version: Seq<char>,
}

impl FileNameParts {
    /// Each field is of its class: tokens and numbers.
    pub open spec fn well_formed(self) -> bool {
        &&& is_token(self.scheme)
        &&& is_token(self.os)
        &&& is_number(self.timestamp)
        &&& is_token(self.device_id)
        &&& is_number(self.version)
    }

    /// The file name that holds these fields.
    pub open spec fn file_name(self) -> Seq<char> {
        prefix() + self.scheme + separator() + self.os + separator() + self.timestamp
            + separator() + self.device_id + separator() + self.version + suffix()
    }
}

/// Whether a string is a backup file name with these fields.
pub open spec fn is_file_name_of(name: Seq<char>, parts: FileNameParts) -> bool {
    parts.well_formed() && parts.file_name() == name
}

/// The fields of a backup file name, or `None` for a string that is none.
pub open spec fn parts_of(name: Seq<char>) -> Option<FileNameParts> {
    if exists|parts: FileNameParts| is_file_name_of(name, parts) {
        Some(choose|parts: FileNameParts| is_file_name_of(name, parts))
    } else {
        None
    }
}

/// Where the five fields of a file name stand in it: each from its start up to its end.
#[derive(Debug, Clone, Copy)]
pub struct FieldBounds {
    pub scheme: (usize, usize),
    pub os: (usize, usize),
    pub timestamp: (usize, usize),
    pub device_id: (usize, usize),
    pub version: (usize, usize),
}

/// Where the five fields stand, as contracts speak of it.
pub ghost struct Cuts {
    pub scheme: (int, int),
    pub os: (int, int),
    pub timestamp: (int, int),
    pub device_id: (int, int),
    pub version: (int, int),
}

impl View for FieldBounds {
    type V = Cuts;

    open spec fn view(&self) -> Cuts {
        Cuts {
            scheme: (self.scheme.0 as int, self.scheme.1 as int),
            os: (self.os.0 as int, self.os.1 as int),
            timestamp: (self.timestamp.0 as int, self.timestamp.1 as int),
            device_id: (self.device_id.0 as int, self.device_id.1 as int),
            version: (self.version.0 as int, self.version.1 as int),
        }
    }
}

impl Cuts {
    /// The fields that these bounds cut out of a name.
    pub open spec fn cut(self, name: Seq<char>) -> FileNameParts {
        FileNameParts {
            scheme: name.subrange(self.scheme.0, self.scheme.1),
            os: name.subrange(self.os.0, self.os.1),
            timestamp: name.subrange(self.timestamp.0, self.timestamp.1),
            device_id: name.subrange(self.device_id.0, self.device_id.1),
            version: name.subrange(self.version.0, self.version.1),
        }
    }

    /// The bounds lie in the name, one field after the other.
    pub open spec fn within(self, name: Seq<char>) -> bool {
        &&& 0 <= self.scheme.0 <= self.scheme.1 < self.os.0
        &&& self.os.0 <= self.os.1 < self.timestamp.0
        &&& self.timestamp.0 <= self.timestamp.1 < self.device_id.0
        &&& self.device_id.0 <= self.device_id.1 < self.version.0
        &&& self.version.0 <= self.version.1 <= name.len()
    }
}

/// Whether a character is of the class that a field is made of.
spec fn in_class(c: char, digits_only: bool) -> bool {
    if digits_only {
        is_digit(c)
    } else {
        is_token_char(c)
    }
}

/// Where the run of characters of one class that starts at `from` ends.
spec fn run_end(s: Seq<char>, from: int, digits_only: bool) -> int
    decreases s.len() - from,
{
    if 0 <= from < s.len() && in_class(s[from], digits_only) {
        run_end(s, from + 1, digits_only)
    } else {
        from
    }
}

proof fn lemma_run_end(s: Seq<char>, from: int, digits_only: bool)
    requires
        0 <= from <= s.len(),
    ensures
        from <= run_end(s, from, digits_only) <= s.len(),
        forall|k: int|
            from <= k < run_end(s, from, digits_only) ==> in_class(#[trigger] s[k], digits_only),
        run_end(s, from, digits_only) < s.len() ==> !in_class(
            s[run_end(s, from, digits_only)],
            digits_only,
        ),
    decreases s.len() - from,
{
    if from < s.len() && in_class(s[from], digits_only) {
        lemma_run_end(s, from + 1, digits_only);
    }
}

/// A run ends where the first character of another class stands.
proof fn lemma_run_end_is(s: Seq<char>, from: int, end: int, digits_only: bool)
    requires
        0 <= from <= end <= s.len(),
        forall|k: int| from <= k < end ==> in_class(#[trigger] s[k], digits_only),
        end < s.len() ==> !in_class(s[end], digits_only),
    ensures
        run_end(s, from, digits_only) == end,
    decreases end - from,
{
    if from < end {
        lemma_run_end_is(s, from + 1, end, digits_only);
    }
}

/// One field and the separator behind it: the field's end, if the field is not
/// empty and a separator follows it.
spec fn field_end(s: Seq<char>, from: int, digits_only: bool) -> Option<int> {
    let end = run_end(s, from, digits_only);
    if from < end < s.len() && s[end] == '_' {
        Some(end)
    } else {
        None
    }
}

/// The bounds of the five fields, found from left to right.
spec fn bounds_of(name: Seq<char>) -> Option<Cuts> {
    let a0 = prefix().len() as int;
    if name.len() < a0 || name.subrange(0, a0) != prefix() {
        None
    } else {
        match field_end(name, a0, false) {
            None => None,
            Some(a1) => match field_end(name, a1 + 1, false) {
                None => None,
                Some(b1) => match field_end(name, b1 + 1, true) {
                    None => None,
                    Some(c1) => match field_end(name, c1 + 1, false) {
                        None => None,
                        Some(d1) => {
                            let e1 = run_end(name, d1 + 1, true);
                            if d1 + 1 < e1 && name.subrange(e1, name.len() as int) == suffix() {
                                Some(
                                    Cuts {
                                        scheme: (a0, a1),
                                        os: (a1 + 1, b1),
                                        timestamp: (b1 + 1, c1),
                                        device_id: (c1 + 1, d1),
                                        version: (d1 + 1, e1),
                                    },
                                )
                            } else {
                                None
                            }
                        },
                    },
                },
            },
        }
    }
}

/// The places where the fields of `parts` stand in its file name.
spec fn layout(parts: FileNameParts) -> Cuts {
    let a0 = prefix().len() as int;
    let a1 = a0 + parts.scheme.len();
    let b1 = a1 + 1 + parts.os.len();
    let c1 = b1 + 1 + parts.timestamp.len();
    let d1 = c1 + 1 + parts.device_id.len();
    let e1 = d1 + 1 + parts.version.len();
    Cuts {
        scheme: (a0, a1),
        os: (a1 + 1, b1),
        timestamp: (b1 + 1, c1),
        device_id: (c1 + 1, d1),
        version: (d1 + 1, e1),
    }
}

proof fn lemma_literals()
    ensures
        prefix().len() == 17,
        suffix().len() == 4,
        suffix()[0] == '.',
        !is_digit('.'),
        !is_token_char('_'),
        !is_digit('_'),
{
    reveal_strlit("sealvault_backup_");
    reveal_strlit(".zip");
}

/// What stands where in the file name of well-formed parts.
proof fn lemma_layout(parts: FileNameParts)
    requires
        parts.well_formed(),
    ensures
        layout(parts).within(parts.file_name()),
        layout(parts).cut(parts.file_name()) == parts,
        layout(parts).scheme.0 == prefix().len(),
        parts.file_name().subrange(0, prefix().len() as int) == prefix(),
        parts.file_name()[layout(parts).scheme.1] == '_',
        parts.file_name()[layout(parts).os.1] == '_',
        parts.file_name()[layout(parts).timestamp.1] == '_',
        parts.file_name()[layout(parts).device_id.1] == '_',
        layout(parts).os.0 == layout(parts).scheme.1 + 1,
        layout(parts).timestamp.0 == layout(parts).os.1 + 1,
        layout(parts).device_id.0 == layout(parts).timestamp.1 + 1,
        layout(parts).version.0 == layout(parts).device_id.1 + 1,
        layout(parts).version.1 + 4 == parts.file_name().len(),
        parts.file_name().subrange(
            layout(parts).version.1,
            parts.file_name().len() as int,
        ) == suffix(),
{
    lemma_literals();
    let name = parts.file_name();
    let b = layout(parts);
    assert(name.subrange(0, 17) =~= prefix());
    assert(name.subrange(b.scheme.0, b.scheme.1) =~= parts.scheme);
    assert(name.subrange(b.os.0, b.os.1) =~= parts.os);
    assert(name.subrange(b.timestamp.0, b.timestamp.1) =~= parts.timestamp);
    assert(name.subrange(b.device_id.0, b.device_id.1) =~= parts.device_id);
    assert(name.subrange(b.version.0, b.version.1) =~= parts.version);
    assert(name.subrange(b.version.1, name.len() as int) =~= suffix());
}

/// The bounds that are found in the file name of well-formed parts are those
/// at which the parts were written.
proof fn lemma_bounds_of_file_name(parts: FileNameParts)
    requires
        parts.well_formed(),
    ensures
        bounds_of(parts.file_name()) == Some(layout(parts)),
{
    lemma_literals();
    lemma_layout(parts);
    let name = parts.file_name();
    let b = layout(parts);
    let cut = b.cut(name);
    assert forall|k: int| b.scheme.0 <= k < b.scheme.1 implies in_class(
        #[trigger] name[k],
        false,
    ) by {
        assert(name[k] == cut.scheme[k - b.scheme.0]);
    }
    lemma_run_end_is(name, b.scheme.0, b.scheme.1, false);
    assert forall|k: int| b.os.0 <= k < b.os.1 implies in_class(#[trigger] name[k], false) by {
        assert(name[k] == cut.os[k - b.os.0]);
    }
    lemma_run_end_is(name, b.os.0, b.os.1, false);
    assert forall|k: int| b.timestamp.0 <= k < b.timestamp.1 implies in_class(
        #[trigger] name[k],
        true,
    ) by {
        assert(name[k] == cut.timestamp[k - b.timestamp.0]);
    }
    lemma_run_end_is(name, b.timestamp.0, b.timestamp.1, true);
    assert forall|k: int| b.device_id.0 <= k < b.device_id.1 implies in_class(
        #[trigger] name[k],
        false,
    ) by {
        assert(name[k] == cut.device_id[k - b.device_id.0]);
    }
    lemma_run_end_is(name, b.device_id.0, b.device_id.1, false);
    assert forall|k: int| b.version.0 <= k < b.version.1 implies in_class(
        #[trigger] name[k],
        true,
    ) by {
        assert(name[k] == cut.version[k - b.version.0]);
    }
    assert(name[b.version.1] == suffix()[0]) by {
        assert(name.subrange(b.version.1, name.len() as int)[0] == name[b.version.1]);
    }
    lemma_run_end_is(name, b.version.0, b.version.1, true);
}

/// The bounds that are found in a string cut a backup file name's fields out of it.
proof fn lemma_bounds_cut_parts(name: Seq<char>)
    requires
        bounds_of(name) is Some,
    ensures
        bounds_of(name)->0.within(name),
        is_file_name_of(name, bounds_of(name)->0.cut(name)),
{
    lemma_literals();
    let b = bounds_of(name)->0;
    let parts = b.cut(name);
    let a1 = run_end(name, 17, false);
    lemma_run_end(name, 17, false);
    let b1 = run_end(name, a1 + 1, false);
    lemma_run_end(name, a1 + 1, false);
    let c1 = run_end(name, b1 + 1, true);
    lemma_run_end(name, b1 + 1, true);
    let d1 = run_end(name, c1 + 1, false);
    lemma_run_end(name, c1 + 1, false);
    let e1 = run_end(name, d1 + 1, true);
    lemma_run_end(name, d1 + 1, true);
    assert(b.scheme == (17int, a1));
    assert(b.os == (a1 + 1, b1));
    assert(b.timestamp == (b1 + 1, c1));
    assert(b.device_id == (c1 + 1, d1));
    assert(b.version == (d1 + 1, e1));
    assert(is_token(parts.scheme)) by {
        assert forall|k: int| 0 <= k < parts.scheme.len() implies is_token_char(
            #[trigger] parts.scheme[k],
        ) by {
            assert(in_class(name[k + b.scheme.0], false));
        }
    }
    assert(is_token(parts.os)) by {
        assert forall|k: int| 0 <= k < parts.os.len() implies is_token_char(
            #[trigger] parts.os[k],
        ) by {
            assert(in_class(name[k + b.os.0], false));
        }
    }
    assert(is_number(parts.timestamp)) by {
        assert forall|k: int| 0 <= k < parts.timestamp.len() implies is_digit(
            #[trigger] parts.timestamp[k],
        ) by {
            assert(in_class(name[k + b.timestamp.0], true));
        }
    }
    assert(is_token(parts.device_id)) by {
        assert forall|k: int| 0 <= k < parts.device_id.len() implies is_token_char(
            #[trigger] parts.device_id[k],
        ) by {
            assert(in_class(name[k + b.device_id.0], false));
        }
    }
    assert(is_number(parts.version)) by {
        assert forall|k: int| 0 <= k < parts.version.len() implies is_digit(
            #[trigger] parts.version[k],
        ) by {
            assert(in_class(name[k + b.version.0], true));
        }
    }
    assert(parts.file_name() =~= name) by {
        let joined = parts.file_name();
        assert forall|k: int| 0 <= k < name.len() implies joined[k] == name[k] by {
            if k < 17 {
                assert(name.subrange(0, 17)[k] == name[k]);
            } else if k >= b.version.1 {
                assert(name.subrange(b.version.1, name.len() as int)[k - b.version.1]
                    == name[k]);
            }
        }
    }
}

/// A well-formed file name has one reading: its parts are those that it was
/// made of, and they are found from left to right.
pub proof fn lemma_parts_of_file_name(parts: FileNameParts)
    requires
        parts.well_formed(),
    ensures
        parts_of(parts.file_name()) == Some(parts),
{
    let name = parts.file_name();
    assert(is_file_name_of(name, parts));
    let chosen = choose|other: FileNameParts| is_file_name_of(name, other);
    lemma_bounds_of_file_name(parts);
    lemma_bounds_of_file_name(chosen);
    lemma_layout(parts);
    lemma_layout(chosen);
}

/// Reading from left to right finds the parts of every backup file name, and
/// nothing in any other string.
proof fn lemma_parts_found(name: Seq<char>)
    ensures
        parts_of(name) == match bounds_of(name) {
            Some(bounds) => Some(bounds.cut(name)),
            None => None,
        },
{
    if bounds_of(name) is Some {
        lemma_bounds_cut_parts(name);
        lemma_parts_of_file_name(bounds_of(name)->0.cut(name));
    } else {
        if exists|parts: FileNameParts| is_file_name_of(name, parts) {
            let parts = choose|parts: FileNameParts| is_file_name_of(name, parts);
            lemma_bounds_of_file_name(parts);
        }
    }
}

/// Whether `literal` stands in `chars` at `at`.
fn stands_at(chars: &Vec<char>, at: usize, literal: &Vec<char>) -> (b: bool)
    requires
        at <= chars.len(),
    ensures
        b == (at + literal.len() <= chars.len() && chars@.subrange(
            at as int,
            at + literal.len(),
        ) == literal@),
{
    if literal.len() > chars.len() - at {
        return false;
    }
    let mut i: usize = 0;
    while i < literal.len()
        invariant
            at + literal.len() <= chars.len(),
            i <= literal.len(),
            forall|k: int| 0 <= k < i ==> chars@[at + k] == literal@[k],
        decreases literal.len() - i,
    {
        if chars[at + i] != literal[i] {
            assert(chars@.subrange(at as int, at + literal.len())[i as int] != literal@[i as int]);
            return false;
        }
        i += 1;
    }
    assert(chars@.subrange(at as int, at + literal.len()) =~= literal@);
    true
}

fn of_class(c: char, digits_only: bool) -> (b: bool)
    ensures
        b == in_class(c, digits_only),
{
    if digits_only {
        is_digit_char(c)
    } else {
        is_token_character(c)
    }
}

/// The end of the run of one class that starts at `from`.
fn scan(chars: &Vec<char>, from: usize, digits_only: bool) -> (end: usize)
    requires
        from <= chars.len(),
    ensures
        end == run_end(chars@, from as int, digits_only),
        from <= end <= chars.len(),
{
    let mut end: usize = from;
    while end < chars.len() && of_class(chars[end], digits_only)
        invariant
            from <= end <= chars.len(),
            run_end(chars@, from as int, digits_only) == run_end(chars@, end as int, digits_only),
        decreases chars.len() - end,
    {
        end += 1;
    }
    end
}

/// The end of the field that starts at `from`, if it is not empty and a
/// separator follows it.
fn scan_field(chars: &Vec<char>, from: usize, digits_only: bool) -> (r: Option<usize>)
    requires
        from <= chars.len(),
    ensures
        match r {
            Some(end) => field_end(chars@, from as int, digits_only) == Some(end as int) && from
                < end < chars.len(),
            None => field_end(chars@, from as int, digits_only) is None,
        },
{
    let end: usize = scan(chars, from, digits_only);
    if from < end && end < chars.len() && chars[end] == '_' {
        Some(end)
    } else {
        None
    }
}

/// Finds the bounds of the five fields from left to right.
fn find_bounds(name: &Vec<char>) -> (r: Option<FieldBounds>)
    ensures
        match r {
            Some(bounds) => bounds_of(name@) == Some(bounds@),
            None => bounds_of(name@) is None,
        },
{
    proof {
        lemma_literals();
    }
    let prefix = chars_of("sealvault_backup_");
    let suffix = chars_of(".zip");
    if !stands_at(name, 0, &prefix) {
        return None;
    }
    let a0: usize = prefix.len();
    let a1: usize = match scan_field(name, a0, false) {
        Some(end) => end,
        None => {
            return None;
        },
    };
    let b1: usize = match scan_field(name, a1 + 1, false) {
        Some(end) => end,
        None => {
            return None;
        },
    };
    let c1: usize = match scan_field(name, b1 + 1, true) {
        Some(end) => end,
        None => {
            return None;
        },
    };
    let d1: usize = match scan_field(name, c1 + 1, false) {
        Some(end) => end,
        None => {
            return None;
        },
    };
    let e1: usize = scan(name, d1 + 1, true);
    if !(d1 + 1 < e1) {
        return None;
    }
    if !stands_at(name, e1, &suffix) || name.len() - e1 != suffix.len() {
        return None;
    }
    Some(
        FieldBounds {
            scheme: (a0, a1),
            os: (a1 + 1, b1),
            timestamp: (b1 + 1, c1),
            device_id: (c1 + 1, d1),
            version: (d1 + 1, e1),
        },
    )
}

/// Finds the five fields of a backup file name. `None` for every string that
/// is no backup file name: another prefix or suffix, a field too many or too
/// few, an empty field, a character that its field does not admit.
pub fn split_file_name(name: &Vec<char>) -> (r: Option<FieldBounds>)
    ensures
        match r {
            Some(bounds) => bounds@.within(name@) && parts_of(name@) == Some(bounds@.cut(name@)),
            None => parts_of(name@) is None,
        },
{
    let found = find_bounds(name);
    proof {
        lemma_parts_found(name@);
        if found is Some {
            lemma_bounds_cut_parts(name@);
        }
    }
    found
}

} // verus!
