//! Resolution of one identifier's metadata: selecting the source PDF
//! variant among the fetched records, deriving and sanitizing the target
//! filename, deciding whether the advertised checksum can be trusted, and
//! building the credentialed download URL.

use vstd::prelude::*;
use crate::filename::{base_name_of, sanitized, with_extension, base_name, sanitize_filename,
    ensure_extension};
use crate::strutil::{ends_with_ci, ends_with_ignore_ascii_case, str_eq, concat3};

verus! {

/// One file-variant record of the metadata response, as plain values.
#[derive(Debug, Clone)]
pub struct VariantRecord {
    /// The variant's role flag; the source document carries `source`.
    pub file_flag: String,
    /// The variant's format string, such as `pdf`.
    pub format: String,
    /// Storage location URLs for the variant's bytes.
    pub storage_locations: Vec<String>,
    /// Advertised checksum of the variant's bytes, when present.
    pub checksum: Option<String>,
    /// Advertised size of the variant in bytes, when present.
    pub size: Option<u64>,
}

/// Everything one download task needs, resolved once per item.
#[derive(Debug, Clone)]
pub struct ResolvedMetadata {
    /// Download URL with the credential already attached.
    pub download_url: String,
    /// Sanitized target filename.
    pub filename: String,
    /// Expected checksum, kept only when it can be trusted.
    pub expected_checksum: Option<String>,
    /// Expected size in bytes, when advertised.
    pub expected_size: Option<u64>,
}

/// The mathematical shape of a `ResolvedMetadata` value.
pub ghost struct MetadataModel {
    pub download_url: Seq<char>,
    pub filename: Seq<char>,
    pub expected_checksum: Option<Seq<char>>,
    pub expected_size: Option<u64>,
}

impl View for ResolvedMetadata {
    type V = MetadataModel;

    open spec fn view(&self) -> MetadataModel {
        MetadataModel {
            download_url: self.download_url@,
            filename: self.filename@,
            expected_checksum: match self.expected_checksum {
                Some(c) => Some(c@),
                None => None,
            },
            expected_size: self.expected_size,
        }
    }
}

/// Why resolution of an item's metadata failed.
#[derive(Debug, Clone, Copy, PartialEq, Eq, Structural)]
pub enum ResolveError {
    /// No variant record has the source role flag and the PDF format.
    NoSourceVariant,
    /// The selected variant has no storage location.
    NoStorageLocation,
}

/// The variant that holds the source document in PDF format.
pub open spec fn is_source_pdf(rec: VariantRecord) -> bool {
    rec.file_flag@ == "source"@ && rec.format@ == "pdf"@
}

/// The first source-PDF variant of the record list, if any.
pub open spec fn find_source_pdf(recs: Seq<VariantRecord>) -> Option<VariantRecord>
    decreases recs.len(),
{
    if recs.len() == 0 {
        None
    } else if is_source_pdf(recs[0]) {
        Some(recs[0])
    } else {
        find_source_pdf(recs.drop_first())
    }
}

/// The filename before sanitization: the display title when the storage
/// path shows the double-extension artifact, else the storage path's base
/// name, else the identifier itself; always carrying the `.pdf` extension.
pub open spec fn derived_filename(
    storage: Seq<char>,
    title: Seq<char>,
    content_id: Seq<char>,
) -> Seq<char> {
    let base = if ends_with_ci(storage, "pdf.pdf"@) {
        title
    } else {
        match base_name_of(storage) {
            Some(b) => b,
            None => content_id,
        }
    };
    with_extension(base, ".pdf"@)
}

/// What resolution returns for given records, title, identifier and
/// credential. The checksum is dropped in the title-fallback case, where
/// the storage path does not correspond byte-for-byte to the checksummed
/// resource.
pub open spec fn resolve_spec(
    recs: Seq<VariantRecord>,
    title: Seq<char>,
    content_id: Seq<char>,
    credential: Seq<char>,
) -> Result<MetadataModel, ResolveError> {
    match find_source_pdf(recs) {
        None => Err(ResolveError::NoSourceVariant),
        Some(rec) => {
            if rec.storage_locations@.len() == 0 {
                Err(ResolveError::NoStorageLocation)
            } else {
                let storage = rec.storage_locations@[0]@;
                let title_fallback = ends_with_ci(storage, "pdf.pdf"@);
                Ok(
                    MetadataModel {
                        download_url: storage + "?accessToken="@ + credential,
                        filename: sanitized(derived_filename(storage, title, content_id)),
                        expected_checksum: if title_fallback {
                            None
                        } else {
                            match rec.checksum {
                                Some(c) => Some(c@),
                                None => None,
                            }
                        },
                        expected_size: rec.size,
                    },
                )
            }
        },
    }
}

/// Resolves the metadata of one item from the fetched variant records and
/// display title: selects the source PDF variant, derives the sanitized
/// filename, keeps the checksum only when it is trustworthy, and attaches
/// the credential to the download URL.
pub fn resolve_textbook_details(
    records: &Vec<VariantRecord>,
    title: &str,
    content_id: &str,
    credential: &str,
) -> (r: Result<ResolvedMetadata, ResolveError>)
    ensures
        match r {
            Ok(m) => resolve_spec(records@, title@, content_id@, credential@) == Ok::<
                MetadataModel,
                ResolveError,
            >(m@),
            Err(e) => resolve_spec(records@, title@, content_id@, credential@) == Err::<
                MetadataModel,
                ResolveError,
            >(e),
        },
{
    proof {
        assert(records@.skip(0) =~= records@);
    }
    let mut i: usize = 0;
    let n = records.len();
    while i < n
        invariant
            n == records@.len(),
            i <= n,
            find_source_pdf(records@.skip(i as int)) == find_source_pdf(records@),
            forall|j: int| 0 <= j < i ==> !is_source_pdf(records@[j]),
        decreases n - i,
    {
        let rec = &records[i];
        let flag_ok = str_eq(rec.file_flag.as_str(), "source");
        let fmt_ok = str_eq(rec.format.as_str(), "pdf");
        proof {
            assert(records@.skip(i as int)[0] == records@[i as int]);
            assert(records@.skip(i as int).drop_first() =~= records@.skip(i + 1));
        }
        if flag_ok && fmt_ok {
            proof {
                assert(find_source_pdf(records@) == Some(records@[i as int]));
            }
            if rec.storage_locations.len() == 0 {
                return Err(ResolveError::NoStorageLocation);
            }
            let storage = &rec.storage_locations[0];
            let title_fallback = ends_with_ignore_ascii_case(storage.as_str(), "pdf.pdf");
            let base: String = if title_fallback {
                title.to_owned()
            } else {
                match base_name(storage.as_str()) {
                    Some(b) => b,
                    None => content_id.to_owned(),
                }
            };
            let named = ensure_extension(base, ".pdf");
            let filename = sanitize_filename(named.as_str());
            let download_url = concat3(storage.as_str(), "?accessToken=", credential);
            let expected_checksum: Option<String> = if title_fallback {
                None
            } else {
                match &rec.checksum {
                    Some(c) => Some(c.clone()),
                    None => None,
                }
            };
            let resolved = ResolvedMetadata {
                download_url,
                filename,
                expected_checksum,
                expected_size: rec.size,
            };
            proof {
                assert(resolve_spec(records@, title@, content_id@, credential@) matches Ok(m)
                    && m =~= resolved@);
            }
            return Ok(resolved);
        }
        i += 1;
    }
    proof {
        assert(records@.skip(i as int).len() == 0);
    }
    Err(ResolveError::NoSourceVariant)
}

} // verus!
