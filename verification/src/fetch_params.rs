//! Choosing which proof parameters to fetch, and reading a sector size as a
//! person writes it.

use vstd::prelude::*;
use vstd::string::*;
use crate::text::same_text;

verus! {

/// The sector sizes for which proof parameters exist.
#[allow(non_camel_case_types)]
#[derive(Clone, Copy, Debug, PartialEq, Eq, Structural)]
pub enum SectorSize {
    _2KiB,
    _8MiB,
    _512MiB,
    _32GiB,
    _64GiB,
}

/// Which proof parameters to fetch.
#[derive(Clone, Copy, Debug, PartialEq, Eq, Structural)]
pub enum SectorSizeOpt {
    /// All parameters.
    All,
    /// Only the verification keys.
    Keys,
    /// The parameters of one sector size.
    Size(SectorSize),
}

/// A text that names no sector size.
#[derive(Debug)]
pub struct SectorSizeError {
    /// The text as it was given.
    pub input: String,
}

/// Why no parameters can be fetched.
#[derive(Debug)]
pub enum FetchError {
    /// The size given names no sector size.
    BadSize(SectorSizeError),
    /// Neither all parameters, nor the keys, nor a size was asked for.
    NothingChosen,
}

/// `text` without the run of `c` at its end.
pub open spec fn trim_end(text: Seq<char>, c: char) -> Seq<char>
    decreases text.len(),
{
    if text.len() > 0 && text.last() == c {
        trim_end(text.drop_last(), c)
    } else {
        text
    }
}

/// The sector size that `text` names. A size is written as its number of
/// bytes or with a binary unit (`2Ki`, `8Mi`, `512Mi`, `32Gi`, `64Gi`, the
/// unit's first letter in either case); a run of `B` at the very end, and a
/// run of `b` before it, are ignored.
pub open spec fn sector_size_of(text: Seq<char>) -> Option<SectorSize> {
    let t = trim_end(trim_end(text, 'B'), 'b');
    if t == "2048"@ || t == "2Ki"@ || t == "2ki"@ {
        Some(SectorSize::_2KiB)
    } else if t == "8388608"@ || t == "8Mi"@ || t == "8mi"@ {
        Some(SectorSize::_8MiB)
    } else if t == "536870912"@ || t == "512Mi"@ || t == "512mi"@ {
        Some(SectorSize::_512MiB)
    } else if t == "34359738368"@ || t == "32Gi"@ || t == "32gi"@ {
        Some(SectorSize::_32GiB)
    } else if t == "68719476736"@ || t == "64Gi"@ || t == "64gi"@ {
        Some(SectorSize::_64GiB)
    } else {
        None
    }
}

/// Trimming a text that ends in `c` is trimming it without that end.
proof fn lemma_trim_prefix(text: Seq<char>, c: char, end: int)
    requires
        0 <= end <= text.len(),
        forall|i: int| end <= i < text.len() ==> text[i] == c,
    ensures
        trim_end(text, c) == trim_end(text.subrange(0, end), c),
    decreases text.len() - end,
{
    if end < text.len() {
        assert(text.last() == c);
        let shorter = text.drop_last();
        lemma_trim_prefix(shorter, c, end);
        assert(shorter.subrange(0, end) =~= text.subrange(0, end));
    } else {
        assert(text.subrange(0, end) =~= text);
    }
}

/// The number of characters of `text` that are left when the run of `c` at
/// the end of its first `len` characters is taken off.
fn trimmed_len(text: &str, len: usize, c: char) -> (end: usize)
    requires
        len <= text@.len(),
    ensures
        end <= len,
        text@.subrange(0, end as int) == trim_end(text@.subrange(0, len as int), c),
{
    let mut end: usize = len;
    while end > 0 && text.get_char(end - 1) == c
        invariant
            end <= len <= text@.len(),
            forall|i: int| end <= i < len ==> text@[i] == c,
        decreases end,
    {
        end -= 1;
    }
    proof {
        let whole = text@.subrange(0, len as int);
        lemma_trim_prefix(whole, c, end as int);
        assert(whole.subrange(0, end as int) =~= text@.subrange(0, end as int));
    }
    end
}

/// Converts a human readable string to a sector size.
pub fn ram_to_int(size: &str) -> (result: Result<SectorSize, SectorSizeError>)
    ensures
        match sector_size_of(size@) {
            Some(s) => result == Ok::<SectorSize, SectorSizeError>(s),
            None => result is Err && result->Err_0.input@ == size@,
        },
{
    let len = size.unicode_len();
    proof {
        assert(size@.subrange(0, len as int) =~= size@);
    }
    let without_upper = trimmed_len(size, len, 'B');
    let end = trimmed_len(size, without_upper, 'b');
    let trimmed = size.substring_char(0, end);
    if same_text(trimmed, "2048") || same_text(trimmed, "2Ki") || same_text(trimmed, "2ki") {
        Ok(SectorSize::_2KiB)
    } else if same_text(trimmed, "8388608") || same_text(trimmed, "8Mi") || same_text(trimmed, "8mi") {
        Ok(SectorSize::_8MiB)
    } else if same_text(trimmed, "536870912") || same_text(trimmed, "512Mi") || same_text(trimmed, "512mi") {
        Ok(SectorSize::_512MiB)
    } else if same_text(trimmed, "34359738368") || same_text(trimmed, "32Gi") || same_text(trimmed, "32gi") {
        Ok(SectorSize::_32GiB)
    } else if same_text(trimmed, "68719476736") || same_text(trimmed, "64Gi") || same_text(trimmed, "64gi") {
        Ok(SectorSize::_64GiB)
    } else {
        Err(SectorSizeError { input: size.to_owned() })
    }
}

/// The command that fetches proof parameters.
#[derive(Debug)]
pub struct FetchCommands {
    /// Download all proof parameters.
    all: bool,
    /// Download only verification keys.
    keys: bool,
    /// Size in bytes.
    params_size: Option<String>,
}

/// What a command with these settings fetches: everything if `all` is set;
/// else the parameters of the size given, which must be a sector size; else
/// the keys if `keys` is set.
pub open spec fn chosen_sizes(all: bool, keys: bool, params_size: Option<Seq<char>>) -> Option<
    SectorSizeOpt,
> {
    if all {
        Some(SectorSizeOpt::All)
    } else {
        match params_size {
            Some(size) => match sector_size_of(size) {
                Some(s) => Some(SectorSizeOpt::Size(s)),
                None => None,
            },
            None => if keys {
                Some(SectorSizeOpt::Keys)
            } else {
                None
            },
        }
    }
}

impl FetchCommands {
    /// Whether all parameters are asked for.
    pub closed spec fn wants_all(&self) -> bool {
        self.all
    }

    /// Whether the verification keys are asked for.
    pub closed spec fn wants_keys(&self) -> bool {
        self.keys
    }

    /// The size asked for, as text.
    pub closed spec fn size_text(&self) -> Option<Seq<char>> {
        match self.params_size {
            Some(s) => Some(s@),
            None => None,
        }
    }

    /// The command with these settings.
    pub fn new(all: bool, keys: bool, params_size: Option<String>) -> (command: FetchCommands)
        ensures
            command.wants_all() == all,
            command.wants_keys() == keys,
            command.size_text() == match params_size {
                Some(s) => Some(s@),
                None => None,
            },
    {
        FetchCommands { all, keys, params_size }
    }

    /// What the command fetches; see [`chosen_sizes`]. A size that names no
    /// sector size is an error even where the keys are asked for as well, and
    /// so is a command that asks for nothing.
    pub fn sizes(&self) -> (result: Result<SectorSizeOpt, FetchError>)
        ensures
            match chosen_sizes(self.wants_all(), self.wants_keys(), self.size_text()) {
                Some(opt) => result == Ok::<SectorSizeOpt, FetchError>(opt),
                None => match result {
                    Ok(_) => false,
                    Err(FetchError::BadSize(e)) => !self.wants_all() && self.size_text() == Some(
                        e.input@,
                    ),
                    Err(FetchError::NothingChosen) => !self.wants_all() && !self.wants_keys()
                        && self.size_text() is None,
                },
            },
    {
        if self.all {
            return Ok(SectorSizeOpt::All);
        }
        match &self.params_size {
            Some(size) => match ram_to_int(size.as_str()) {
                Ok(s) => Ok(SectorSizeOpt::Size(s)),
                Err(e) => Err(FetchError::BadSize(e)),
            },
            None => if self.keys {
                Ok(SectorSizeOpt::Keys)
            } else {
                Err(FetchError::NothingChosen)
            },
        }
    }
}

} // verus!
