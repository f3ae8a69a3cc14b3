//! The generation of new migration files.

use vstd::prelude::*;
use vstd::string::*;
use crate::migrations::checksum::{compute_checksum, content_checksum};
use crate::migrations::MigrationVersion;
use crate::text::{
    alphanumeric,
    chars_of,
    decimal,
    find_char,
    is_alphanumeric,
    join_path,
    joined_path,
    lowercased,
    owned,
    pad_with_zeros,
    parse_u64,
    parsed_number,
    push_char,
    push_decimal,
    slice_chars,
    to_lowercase,
    zero_padded,
};

verus! {

/// The template of a migration file.
pub const MIGRATION_TEMPLATE: &'static str = "# Migration template\n#\n# MANIFESTO ALIGNMENT: Deterministic, reversible migration.\n\nversion: 1\nchecksum: \"\"\ntimestamp: \"2026-01-01T00:00:00Z\"\n\nup:\n  # Forward migration operations\n  - create_collection:\n      name: example\n      schema:\n        properties:\n          id:\n            type: string\n            required: true\n          name:\n            type: string\n        indexes:\n          - fields: [id]\n            unique: true\n\ndown:\n  # Rollback operations (reverse of 'up')\n  - drop_collection:\n      name: example\n";

/// The start of a generated file, up to the migration's name.
pub const FILE_HEAD: &'static str = "# Migration: ";

/// What stands between the name and the time of creation.
pub const FILE_CREATED: &'static str = "\n# Created: ";

/// What stands between the time of creation and the version.
pub const FILE_VERSION: &'static str = "\n#\n# MANIFESTO ALIGNMENT: Deterministic, reversible migration.\n# Edit the 'up' and 'down' sections to define your schema changes.\n\nversion: ";

/// What stands before the checksum.
pub const FILE_CHECKSUM: &'static str = "\nchecksum: \"";

/// What stands before the timestamp when a checksum comes before it.
pub const FILE_TIMESTAMP_AFTER_CHECKSUM: &'static str = "\"\ntimestamp: \"";

/// What stands before the timestamp when no checksum comes before it.
pub const FILE_TIMESTAMP: &'static str = "\ntimestamp: \"";

/// The operations of a generated file.
pub const FILE_BODY: &'static str = "\"\nup:\n  # Add your forward migration operations here\n  # Example:\n  # - create_collection:\n  #     name: my_collection\n  #     schema:\n  #       properties:\n  #         field_name:\n  #           type: string\n  #           required: true\n  - create_collection:\n      name: placeholder\n      schema: {}\n\ndown:\n  # Add your rollback operations here (reverse of 'up')\n  # Example:\n  # - drop_collection:\n  #     name: my_collection\n  - drop_collection:\n      name: placeholder\n";

/// Migration generator.
#[derive(Debug)]
pub struct MigrationGenerator {
    migrations_dir: String,
}

/// The name of a migration as it is written in a file name: in lower case,
/// with an underscore for every character that is neither a letter nor a
/// digit.
pub open spec fn sanitized_name(name: Seq<char>) -> Seq<char> {
    lowercased(name).map_values(
        |c: char|
            if alphanumeric(c) {
                c
            } else {
                '_'
            },
    )
}

/// The version that a file's stem names: the number before the first
/// underscore, or the whole stem where it holds none. Nothing for a stem
/// that names no number.
pub open spec fn stem_version(stem: Seq<char>) -> Option<u64> {
    if exists|i: int| 0 <= i < stem.len() && stem[i] == '_' {
        let i = choose|i: int|
            0 <= i < stem.len() && stem[i] == '_' && forall|j: int| 0 <= j < i ==> stem[j] != '_';
        parsed_number(stem.take(i), 10, u64::MAX)
    } else {
        parsed_number(stem, 10, u64::MAX)
    }
}

/// The highest version that the stems name; 0 where they name none.
pub open spec fn highest_version(stems: Seq<String>) -> u64
    decreases stems.len(),
{
    if stems.len() == 0 {
        0
    } else {
        let before = highest_version(stems.drop_last());
        match stem_version(stems.last()@) {
            Some(v) => if v > before {
                v
            } else {
                before
            },
            None => before,
        }
    }
}

/// The name of the file of a migration: the version in at least three
/// digits, an underscore, the sanitized name, and `.yaml`.
pub open spec fn file_name_text(version: u64, name: Seq<char>) -> Seq<char> {
    zero_padded(version as nat, 3) + "_"@ + sanitized_name(name) + ".yaml"@
}

/// The content of a generated file without the line of the checksum.
pub open spec fn content_before_checksum(name: Seq<char>, timestamp: Seq<char>, version: u64)
    -> Seq<char> {
    FILE_HEAD@ + sanitized_name(name) + FILE_CREATED@ + timestamp + FILE_VERSION@ + decimal(
        version as nat,
    ) + FILE_TIMESTAMP@ + timestamp + FILE_BODY@
}

/// The content of a generated file: as without the checksum, with the line
/// of the checksum after the version.
pub open spec fn content_text(name: Seq<char>, timestamp: Seq<char>, version: u64) -> Seq<char> {
    FILE_HEAD@ + sanitized_name(name) + FILE_CREATED@ + timestamp + FILE_VERSION@ + decimal(
        version as nat,
    ) + FILE_CHECKSUM@ + content_checksum(content_before_checksum(name, timestamp, version))
        + FILE_TIMESTAMP_AFTER_CHECKSUM@ + timestamp + FILE_BODY@
}

/// The version that a file's stem names.
pub fn version_of_stem(stem: &str) -> (r: Option<u64>)
    ensures
        r == stem_version(stem@),
{
    match find_char(stem, '_') {
        Some(i) => {
            let head = slice_chars(stem, 0, i);
            assert(stem@.subrange(0, i as int) =~= stem@.take(i as int));
            proof {
                let w = choose|w: int|
                    0 <= w < stem@.len() && stem@[w] == '_' && forall|j: int|
                        0 <= j < w ==> stem@[j] != '_';
                assert(w == i) by {
                    if w < i {
                        assert(stem@[w] != '_');
                    }
                    if i < w {
                        assert(stem@[i as int] != '_');
                    }
                }
            }
            parse_u64(head)
        },
        None => parse_u64(stem),
    }
}

/// The sanitized form of a migration's name.
pub fn sanitize_name(name: &str) -> (r: String)
    ensures
        r@ == sanitized_name(name@),
{
    let lower = to_lowercase(name);
    let chars = chars_of(lower.as_str());
    let mut out = String::new();
    let mut i: usize = 0;
    while i < chars.len()
        invariant
            i <= chars@.len(),
            chars@ == lowercased(name@),
            out@ == sanitized_name(name@).take(i as int),
        decreases chars@.len() - i,
    {
        let c = chars[i];
        if is_alphanumeric(c) {
            push_char(&mut out, c);
        } else {
            push_char(&mut out, '_');
        }
        assert(out@ =~= sanitized_name(name@).take(i + 1));
        i = i + 1;
    }
    assert(sanitized_name(name@).take(chars@.len() as int) =~= sanitized_name(name@));
    out
}

/// A migration file to write.
#[derive(Debug, Clone, PartialEq, Eq)]
pub struct GeneratedMigration {
    /// The version of the migration.
    pub version: MigrationVersion,
    /// The file's name.
    pub file_name: String,
    /// The file's path in the migrations directory.
    pub file_path: String,
    /// The file's content.
    pub content: String,
}

impl MigrationGenerator {
    /// The directory of the migration files.
    pub closed spec fn spec_dir(&self) -> Seq<char> {
        self.migrations_dir@
    }

    /// Create a new generator.
    pub fn new(migrations_dir: String) -> (r: Self)
        ensures
            r.spec_dir() == migrations_dir@,
    {
        MigrationGenerator { migrations_dir }
    }

    /// The directory of the migration files.
    pub fn migrations_dir(&self) -> (r: &str)
        ensures
            r@ == self.spec_dir(),
    {
        self.migrations_dir.as_str()
    }

    /// The next version: one more than the highest that the stems of the
    /// files in the directory name, and no more than the largest version
    /// there is.
    pub fn next_version(&self, stems: &Vec<String>) -> (r: MigrationVersion)
        ensures
            r == if highest_version(stems@) == u64::MAX {
                u64::MAX
            } else {
                (highest_version(stems@) + 1) as u64
            },
    {
        let mut max_version: MigrationVersion = 0;
        let mut i: usize = 0;
        assert(stems@.take(0) =~= Seq::<String>::empty());
        while i < stems.len()
            invariant
                i <= stems@.len(),
                max_version == highest_version(stems@.take(i as int)),
            decreases stems@.len() - i,
        {
            proof {
                let next = stems@.take(i + 1);
                assert(next.drop_last() =~= stems@.take(i as int));
                assert(next.last() == stems@[i as int]);
            }
            match version_of_stem(stems[i].as_str()) {
                Some(v) => {
                    if v > max_version {
                        max_version = v;
                    }
                },
                None => {},
            }
            i = i + 1;
        }
        assert(stems@.take(stems@.len() as int) =~= stems@);
        if max_version == u64::MAX {
            u64::MAX
        } else {
            max_version + 1
        }
    }

    /// Creates a new migration file for the name given, created at the time
    /// given, for a directory that holds files with the stems given. The
    /// file carries the checksum of its content without the line of the
    /// checksum.
    pub fn create(&self, name: &str, stems: &Vec<String>, timestamp: &str) -> (r:
        GeneratedMigration)
        ensures
            r.version == if highest_version(stems@) == u64::MAX {
                u64::MAX
            } else {
                (highest_version(stems@) + 1) as u64
            },
            r.file_name@ == file_name_text(r.version, name@),
            r.file_path@ == joined_path(self.spec_dir(), r.file_name@),
            r.content@ == content_text(name@, timestamp@, r.version),
    {
        let version = self.next_version(stems);
        let sanitized = sanitize_name(name);
        let mut file_name = if version > u32::MAX as u64 {
            let mut digits = String::new();
            push_decimal(&mut digits, version);
            proof {
                crate::text::lemma_decimal_grows(version as nat);
                assert(digits@ =~= zero_padded(version as nat, 3));
            }
            digits
        } else {
            pad_with_zeros(version, 3)
        };
        file_name.append("_");
        file_name.append(sanitized.as_str());
        file_name.append(".yaml");
        let mut plain = owned(FILE_HEAD);
        plain.append(sanitized.as_str());
        plain.append(FILE_CREATED);
        plain.append(timestamp);
        plain.append(FILE_VERSION);
        push_decimal(&mut plain, version);
        let mut content = plain.clone();
        plain.append(FILE_TIMESTAMP);
        plain.append(timestamp);
        plain.append(FILE_BODY);
        let checksum = compute_checksum(plain.as_str());
        content.append(FILE_CHECKSUM);
        content.append(checksum.as_str());
        content.append(FILE_TIMESTAMP_AFTER_CHECKSUM);
        content.append(timestamp);
        content.append(FILE_BODY);
        let file_path = join_path(self.migrations_dir.as_str(), file_name.as_str());
        GeneratedMigration { version, file_name, file_path, content }
    }

    /// The template of a migration file.
    pub fn template() -> (r: String)
        ensures
            r@ == MIGRATION_TEMPLATE@,
    {
        owned(MIGRATION_TEMPLATE)
    }
}

} // verus!
