//! The inspection-pairing job: pair image files with their same-stem XML
//! metadata siblings, extract the inspection identifier from each XML, and
//! look the identifier up. No filesystem mutation happens on this path.

use vstd::prelude::*;
use vstd::string::*;
use crate::config::Config;
use crate::paths::{
    lemma_index_of_first_is, path_extension, path_extension_spec, path_stem, path_stem_spec,
    prefix_before, contains_str, str_eq, take_prefix_before,
};
use crate::visit::VisitInfo;

verus! {

/// Record of one inspection, as the metadata store answers it.
#[derive(Debug)]
pub struct InspectionInfo {
    pub container_type: Option<String>,
    pub container_id: Option<u32>,
    pub session_id: Option<u32>,
    pub visit: Option<String>,
    pub year: Option<String>,
}

#[verifier::external_type_specification]
#[verifier::external_body]
pub struct ExElement(elementtree::Element);

/// One paired XML file after identifier extraction.
#[derive(Debug)]
pub struct XmlDatum {
    /// The XML file's path.
    pub xml: String,
    /// The first `-`-separated segment of the imaging id.
    pub inspection_id: String,
    /// The parsed document's root element.
    pub root: elementtree::Element,
    /// The namespaced tag name the identifier was found under.
    pub nss: String,
    /// The metadata found for the identifier, once looked up.
    pub container: Option<VisitInfo>,
}

/// Why one XML file was excluded.
#[derive(Debug)]
pub enum XmlError {
    /// The document did not parse.
    ParseFailed { message: String },
    /// The root element carries no namespace.
    NoNamespace,
    /// No namespaced imaging-id element was found.
    MissingIdentifier,
    /// The imaging id's first segment is empty.
    EmptyIdentifier,
}

/// Whether a document parses: a function of its bytes alone.
pub uninterp spec fn xml_parses(content: Seq<u8>) -> bool;

/// Relies on elementtree::Element::from_reader: parse an XML document from
/// its bytes and give its root element; whether the bytes parse depends on
/// the bytes alone.
#[verifier::external_body]
fn parse_xml(content: &Vec<u8>) -> (r: Result<elementtree::Element, String>)
    ensures
        r is Ok <==> xml_parses(content@),
{
    elementtree::Element::from_reader(content.as_slice()).map_err(|e| e.to_string())
}

/// The namespace URL of the document's root tag: a function of the bytes
/// alone, `None` when they do not parse or the root carries no namespace.
pub uninterp spec fn root_ns_of(content: Seq<u8>) -> Option<Seq<char>>;

/// Relies on elementtree::Element::from_reader, Element::tag and
/// elementtree::QName::ns: parse the document and give the namespace URL
/// of its root tag; the result depends on the bytes alone.
#[verifier::external_body]
fn root_namespace_of(content: &Vec<u8>) -> (r: Option<String>)
    ensures
        match r {
            Some(ns) => root_ns_of(content@) == Some(ns@),
            None => root_ns_of(content@) is None,
        },
{
    match elementtree::Element::from_reader(content.as_slice()) {
        Ok(root) => root.tag().ns().map(|s| s.to_string()),
        Err(_) => None,
    }
}

/// The text under the first direct child of the document's root that
/// matches the qualified name: a function of the bytes and the name alone,
/// `None` when the bytes do not parse or no child matches.
pub uninterp spec fn child_text_of(content: Seq<u8>, name: Seq<char>) -> Option<Seq<char>>;

/// Relies on elementtree::Element::from_reader, Element::find and
/// Element::text: parse the document and give the text under its first
/// child matching the qualified name, written `{namespace}name`; the
/// result depends on the bytes and the name alone.
#[verifier::external_body]
fn child_text(content: &Vec<u8>, name: &str) -> (r: Option<String>)
    ensures
        match r {
            Some(t) => child_text_of(content@, name@) == Some(t@),
            None => child_text_of(content@, name@) is None,
        },
{
    match elementtree::Element::from_reader(content.as_slice()) {
        Ok(root) => root.find(name).map(|el| el.text().to_string()),
        Err(_) => None,
    }
}

/// The qualified name the identifier is looked up under.
pub open spec fn qualified_name_spec(ns: Seq<char>) -> Seq<char> {
    seq!['{'] + ns + seq!['}'] + "ImagingId"@
}

fn qualified_imaging_id(ns: &str) -> (r: String)
    ensures
        r@ == qualified_name_spec(ns@),
{
    let mut r = String::from_str("{");
    r.append(ns);
    r.append("}");
    r.append("ImagingId");
    proof {
        reveal_strlit("{");
        reveal_strlit("}");
        assert(r@ =~= qualified_name_spec(ns@));
    }
    r
}

/// The inspection id of an imaging id: its first `-`-separated segment,
/// which must not be empty.
pub fn inspection_id_from_text(text: &str) -> (r: Result<String, XmlError>)
    ensures
        r is Ok <==> (text@.len() > 0 && text@[0] != '-'),
        r matches Ok(id) ==> (id@ == prefix_before(text@, '-') && id@.len() > 0),
        r matches Err(e) ==> e is EmptyIdentifier,
{
    let id = take_prefix_before(text, '-');
    proof {
        lemma_index_of_first_is(text@, '-');
    }
    if id.as_str().unicode_len() == 0 {
        Err(XmlError::EmptyIdentifier)
    } else {
        Ok(id)
    }
}

/// The text of the document's namespaced imaging-id element: the text
/// under `{rootNamespace}ImagingId`, `None` when the root has no namespace
/// or no such child exists.
pub open spec fn imaging_text_of(content: Seq<u8>) -> Option<Seq<char>> {
    match root_ns_of(content) {
        Some(ns) => child_text_of(content, qualified_name_spec(ns)),
        None => None,
    }
}

/// When identifier extraction succeeds: the document parses, its root is
/// namespaced, the imaging-id element exists, and the first `-`-separated
/// segment of its text is not empty.
pub open spec fn extraction_ok(content: Seq<u8>) -> bool {
    &&& xml_parses(content)
    &&& root_ns_of(content) is Some
    &&& imaging_text_of(content) is Some
    &&& imaging_text_of(content)->0.len() > 0
    &&& imaging_text_of(content)->0[0] != '-'
}

/// Each extraction error comes exactly on its own condition.
pub open spec fn extraction_error_matches(e: XmlError, content: Seq<u8>) -> bool {
    match e {
        XmlError::ParseFailed { message: _ } => !xml_parses(content),
        XmlError::NoNamespace => xml_parses(content) && root_ns_of(content) is None,
        XmlError::MissingIdentifier => xml_parses(content) && root_ns_of(content) is Some
            && imaging_text_of(content) is None,
        XmlError::EmptyIdentifier => xml_parses(content) && root_ns_of(content) is Some
            && imaging_text_of(content) is Some && (imaging_text_of(content)->0.len() == 0
            || imaging_text_of(content)->0[0] == '-'),
    }
}

/// What one slot of identifier extraction holds, as a function of its own
/// file alone: success exactly when the content extracts, the datum's
/// fields pinned on success, the error variant pinned on failure.
pub open spec fn datum_result_matches(
    r: Result<XmlDatum, XmlError>,
    path: Seq<char>,
    content: Seq<u8>,
) -> bool {
    &&& (r is Ok <==> extraction_ok(content))
    &&& (r matches Ok(d) ==> (d.xml@ == path && d.inspection_id@ == prefix_before(
        imaging_text_of(content)->0,
        '-',
    ) && d.inspection_id@.len() > 0 && d.nss@ == qualified_name_spec(root_ns_of(content)->0)
        && d.container is None))
    &&& (r matches Err(e) ==> extraction_error_matches(e, content))
}

/// The inspection-pairing job: its configuration and the flat file list
/// this run looks at.
pub struct EFWorker {
    pub config: Config,
    pub files: Vec<String>,
}

/// The designated image extension of the pairing job.
pub open spec fn jpg_ext() -> Seq<char> {
    seq!['j', 'p', 'g']
}

/// The metadata extension of the pairing job.
pub open spec fn xml_ext() -> Seq<char> {
    seq!['x', 'm', 'l']
}

/// Whether the path's final component carries the given extension.
pub open spec fn is_ext(p: Seq<char>, e: Seq<char>) -> bool {
    path_extension_spec(p) == Some(e)
}

/// Whether some file of the list is an image whose stem matches `p`'s.
pub open spec fn has_matching_jpg(files: Seq<Seq<char>>, p: Seq<char>) -> bool {
    exists|j: int|
        0 <= j < files.len() && is_ext(#[trigger] files[j], jpg_ext()) && path_stem_spec(files[j])
            == path_stem_spec(p)
}

/// The stems of the image files among the first `k` of the list, in order.
pub open spec fn jpg_stems_spec(all: Seq<Seq<char>>, k: int) -> Seq<Seq<char>>
    decreases k,
{
    if k <= 0 {
        Seq::empty()
    } else {
        let prev = jpg_stems_spec(all, k - 1);
        if is_ext(all[k - 1], jpg_ext()) {
            prev.push(path_stem_spec(all[k - 1])->0)
        } else {
            prev
        }
    }
}

proof fn lemma_jpg_stems_contains(all: Seq<Seq<char>>, k: int, x: Seq<char>)
    requires
        0 <= k <= all.len(),
    ensures
        jpg_stems_spec(all, k).contains(x) <==> (exists|j: int|
            0 <= j < k && is_ext(#[trigger] all[j], jpg_ext()) && path_stem_spec(all[j]) == Some(
                x,
            )),
    decreases k,
{
    broadcast use vstd::seq_lib::lemma_seq_contains_after_push;

    if k > 0 {
        lemma_jpg_stems_contains(all, k - 1, x);
        if is_ext(all[k - 1], jpg_ext()) && path_stem_spec(all[k - 1]) == Some(x) {
            assert(jpg_stems_spec(all, k).contains(x));
        }
        if jpg_stems_spec(all, k).contains(x) && !jpg_stems_spec(all, k - 1).contains(x) {
            assert(is_ext(all[k - 1], jpg_ext()) && path_stem_spec(all[k - 1])->0 == x);
            assert(path_stem_spec(all[k - 1]) == Some(x));
        }
    }
}

/// The first `k` files of the list, kept when they are XML files with a
/// matching image, in order.
pub open spec fn pairs_filter(all: Seq<Seq<char>>, k: int) -> Seq<Seq<char>>
    decreases k,
{
    if k <= 0 {
        Seq::empty()
    } else {
        let prev = pairs_filter(all, k - 1);
        if is_ext(all[k - 1], xml_ext()) && has_matching_jpg(all, all[k - 1]) {
            prev.push(all[k - 1])
        } else {
            prev
        }
    }
}

/// The XML files of the list that have a matching image, in order.
pub open spec fn paired_xml_spec(all: Seq<Seq<char>>) -> Seq<Seq<char>> {
    pairs_filter(all, all.len() as int)
}

impl EFWorker {
    /// An inspection-pairing job over the given files.
    pub fn new(config: Config, files: Vec<String>) -> (r: EFWorker)
        ensures
            r.config == config,
            r.files == files,
    {
        EFWorker { config, files }
    }

    /// Keep exactly the XML files whose stem matches an image file's stem;
    /// every other XML file is dropped.
    pub fn check_pairs_collect_xml(&self) -> (r: Vec<String>)
        ensures
            r.deep_view() == paired_xml_spec(self.files.deep_view()),
    {
        broadcast use vstd::seq_lib::lemma_seq_contains_after_push;

        let ghost all = self.files.deep_view();
        proof {
            reveal_strlit("jpg");
            reveal_strlit("xml");
            assert("jpg"@ =~= jpg_ext());
            assert("xml"@ =~= xml_ext());
        }
        let mut stems: Vec<String> = Vec::new();
        let mut i: usize = 0;
        while i < self.files.len()
            invariant
                i <= self.files.len(),
                all == self.files.deep_view(),
                stems.deep_view() == jpg_stems_spec(all, i as int),
            decreases self.files.len() - i,
        {
            let f = &self.files[i];
            proof {
                reveal_strlit("jpg");
                assert("jpg"@ =~= jpg_ext());
                assert(all[i as int] == f@);
            }
            match path_extension(f.as_str()) {
                Some(e) => {
                    if str_eq(e.as_str(), "jpg") {
                        match path_stem(f.as_str()) {
                            Some(s) => {
                                let ghost before = stems.deep_view();
                                stems.push(s);
                                proof {
                                    assert(is_ext(all[i as int], jpg_ext()) && path_stem_spec(
                                        all[i as int],
                                    ) == Some(s@));
                                    assert(stems.deep_view() =~= before.push(s@));
                                }
                            },
                            None => {
                                proof {
                                    assert(false);
                                }
                            },
                        }
                    }
                },
                None => {},
            }
            i = i + 1;
        }
        let ghost stem_set = stems.deep_view();
        proof {
            assert forall|x: Seq<char>| #[trigger]
                stem_set.contains(x) <==> (exists|j: int|
                    0 <= j < all.len() && is_ext(#[trigger] all[j], jpg_ext()) && path_stem_spec(
                        all[j],
                    ) == Some(x)) by {
                lemma_jpg_stems_contains(all, all.len() as int, x);
            }
        }
        let mut r: Vec<String> = Vec::new();
        let mut k: usize = 0;
        while k < self.files.len()
            invariant
                k <= self.files.len(),
                all == self.files.deep_view(),
                stem_set == stems.deep_view(),
                forall|x: Seq<char>|
                    #[trigger] stem_set.contains(x) <==> (exists|j: int|
                        0 <= j < all.len() && is_ext(#[trigger] all[j], jpg_ext())
                            && path_stem_spec(all[j]) == Some(x)),
                r.deep_view() == pairs_filter(all, k as int),
            decreases self.files.len() - k,
        {
            let f = &self.files[k];
            proof {
                reveal_strlit("jpg");
                reveal_strlit("xml");
                assert("jpg"@ =~= jpg_ext());
                assert("xml"@ =~= xml_ext());
                assert(all[k as int] == f@);
            }
            let mut keep = false;
            match path_extension(f.as_str()) {
                Some(e) => {
                    if str_eq(e.as_str(), "xml") {
                        match path_stem(f.as_str()) {
                            Some(s) => {
                                keep = contains_str(&stems, s.as_str());
                                proof {
                                    assert(path_stem_spec(all[k as int]) == Some(s@));
                                    if keep {
                                        let j = choose|j: int|
                                            0 <= j < all.len() && is_ext(
                                                #[trigger] all[j],
                                                jpg_ext(),
                                            ) && path_stem_spec(all[j]) == Some(s@);
                                        assert(has_matching_jpg(all, all[k as int]));
                                    } else {
                                        if has_matching_jpg(all, all[k as int]) {
                                            let j = choose|j: int|
                                                0 <= j < all.len() && is_ext(
                                                    #[trigger] all[j],
                                                    jpg_ext(),
                                                ) && path_stem_spec(all[j]) == path_stem_spec(
                                                    all[k as int],
                                                );
                                            assert(stem_set.contains(s@));
                                            assert(false);
                                        }
                                    }
                                }
                            },
                            None => {
                                proof {
                                    assert(false);
                                }
                            },
                        }
                    }
                },
                None => {},
            }
            proof {
                assert(keep == (is_ext(all[k as int], xml_ext()) && has_matching_jpg(
                    all,
                    all[k as int],
                )));
            }
            if keep {
                let ghost before = r.deep_view();
                r.push(f.clone());
                proof {
                    assert(r.deep_view() =~= before.push(f@));
                }
            }
            k = k + 1;
        }
        r
    }

    /// Parse one paired XML file's content, find the namespaced imaging-id
    /// element and extract the inspection id: the first `-`-separated
    /// segment of its text, which must not be empty. Gives the id, the
    /// qualified name it was found under, and the parsed root. Each error
    /// comes exactly on its own condition.
    pub fn get_inspection_id(&self, xml_content: &Vec<u8>) -> (r: Result<
        (String, String, elementtree::Element),
        XmlError,
    >)
        ensures
            r is Ok <==> extraction_ok(xml_content@),
            r matches Ok(t) ==> (t.0@ == prefix_before(imaging_text_of(xml_content@)->0, '-')
                && t.0@.len() > 0 && t.1@ == qualified_name_spec(root_ns_of(xml_content@)->0)),
            r matches Err(e) ==> extraction_error_matches(e, xml_content@),
    {
        let root = match parse_xml(xml_content) {
            Ok(root) => root,
            Err(m) => {
                return Err(XmlError::ParseFailed { message: m });
            },
        };
        let ns = match root_namespace_of(xml_content) {
            Some(ns) => ns,
            None => {
                return Err(XmlError::NoNamespace);
            },
        };
        let nss = qualified_imaging_id(ns.as_str());
        let text = match child_text(xml_content, nss.as_str()) {
            Some(t) => t,
            None => {
                return Err(XmlError::MissingIdentifier);
            },
        };
        let inspection_id = match inspection_id_from_text(text.as_str()) {
            Ok(id) => id,
            Err(e) => {
                return Err(e);
            },
        };
        Ok((inspection_id, nss, root))
    }

    /// Extract an identifier from each paired XML file's content. Results
    /// line up with the inputs one for one; each slot succeeds exactly when
    /// its own content extracts, so a failing file stops no sibling.
    pub fn process_job(&self, xml_contents: &Vec<(String, Vec<u8>)>) -> (r: Vec<
        Result<XmlDatum, XmlError>,
    >)
        ensures
            r.len() == xml_contents.len(),
            forall|i: int|
                0 <= i < r.len() ==> datum_result_matches(
                    #[trigger] r@[i],
                    xml_contents@[i].0@,
                    xml_contents@[i].1@,
                ),
    {
        let mut r: Vec<Result<XmlDatum, XmlError>> = Vec::new();
        let mut i: usize = 0;
        while i < xml_contents.len()
            invariant
                i <= xml_contents.len(),
                r.len() == i,
                forall|j: int|
                    0 <= j < i ==> datum_result_matches(
                        #[trigger] r@[j],
                        xml_contents@[j].0@,
                        xml_contents@[j].1@,
                    ),
            decreases xml_contents.len() - i,
        {
            let item = match self.get_inspection_id(&xml_contents[i].1) {
                Ok((inspection_id, nss, root)) => Ok(
                    XmlDatum {
                        xml: xml_contents[i].0.clone(),
                        inspection_id,
                        root,
                        nss,
                        container: None,
                    },
                ),
                Err(e) => Err(e),
            };
            r.push(item);
            i = i + 1;
        }
        r
    }

    /// Look one extracted identifier up in the inspection records: the
    /// index of the first record keyed by it, when there is one.
    pub fn handle_ef(&self, xml_datum: &XmlDatum, records: &Vec<(String, InspectionInfo)>) -> (r:
        Option<usize>)
        ensures
            r matches Some(i) ==> (i < records.len() && records@[i as int].0@
                == xml_datum.inspection_id@ && (forall|j: int|
                0 <= j < i ==> records@[j].0@ != xml_datum.inspection_id@)),
            r is None ==> forall|j: int|
                0 <= j < records.len() ==> records@[j].0@ != xml_datum.inspection_id@,
    {
        let mut i: usize = 0;
        while i < records.len()
            invariant
                i <= records.len(),
                forall|j: int| 0 <= j < i ==> records@[j].0@ != xml_datum.inspection_id@,
            decreases records.len() - i,
        {
            if str_eq(records[i].0.as_str(), xml_datum.inspection_id.as_str()) {
                return Some(i);
            }
            i = i + 1;
        }
        None
    }
}

} // verus!
