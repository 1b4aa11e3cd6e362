use vstd::prelude::*;
use vstd::string::StringExecFns;

use crate::config::Config;
use crate::error::XtractError;
use crate::ocr::{interpret_reply, reply_outcome, ApiReply, OcrClient};

verus! {

/// Description of where an extracted text came from.
#[derive(Clone, Debug)]
pub struct DocumentMetadata {
    /// Base name of the image file.
    pub source: String,
    pub page_count: Option<usize>,
    /// Bit pattern of a single-precision confidence score, when one is known.
    pub confidence_bits: Option<u32>,
}

/// The text extracted from one image.
#[derive(Clone, Debug)]
pub struct ExtractedDocument {
    pub text: String,
    pub format: String,
    pub metadata: DocumentMetadata,
}

/// The last component of a path, when it has one that is not `..`.
pub uninterp spec fn path_file_name(path: Seq<char>) -> Option<Seq<char>>;

/// Relies on `std::path::Path::file_name`; the name of a `str` path is
/// always valid UTF-8.
#[verifier::external_body]
fn file_name(path: &str) -> (r: Option<String>)
    ensures
        match r {
            Some(n) => path_file_name(path@) == Some(n@),
            None => path_file_name(path@) is None,
        },
{
    std::path::Path::new(path).file_name().and_then(|n| n.to_str()).map(|n| n.to_string())
}

/// The name under which the document of an image is filed.
pub open spec fn source_name(path: Seq<char>) -> Seq<char> {
    match path_file_name(path) {
        Some(n) => n,
        None => "unknown"@,
    }
}

/// `doc` holds `text`, extracted under `config` from the image at `path`.
pub open spec fn is_document_for(
    doc: ExtractedDocument,
    config: Config,
    path: Seq<char>,
    text: Seq<char>,
) -> bool {
    &&& doc.text@ == text
    &&& doc.format@ == config.extraction.output_format@
    &&& doc.metadata.source@ == source_name(path)
    &&& doc.metadata.page_count == Some(1usize)
    &&& doc.metadata.confidence_bits is None
}

/// The documents of the outcomes that succeeded, in their order.
pub open spec fn successes(outcomes: Seq<Result<ExtractedDocument, XtractError>>) -> Seq<
    ExtractedDocument,
>
    decreases outcomes.len(),
{
    if outcomes.len() == 0 {
        seq![]
    } else {
        let rest = successes(outcomes.drop_first());
        match outcomes[0] {
            Ok(d) => seq![d] + rest,
            Err(_) => rest,
        }
    }
}

/// How many of the outcomes failed.
pub open spec fn failure_count(outcomes: Seq<Result<ExtractedDocument, XtractError>>) -> nat
    decreases outcomes.len(),
{
    if outcomes.len() == 0 {
        0
    } else {
        let rest = failure_count(outcomes.drop_first());
        match outcomes[0] {
            Ok(_) => rest,
            Err(_) => rest + 1,
        }
    }
}

/// The section of the combined output that shows one document.
pub open spec fn section_of(doc: ExtractedDocument) -> Seq<char> {
    "=== "@ + doc.metadata.source@ + " ===\n\n"@ + doc.text@ + "\n"@
}

/// The combined output of several documents: their sections, in order,
/// joined by a separator line.
pub open spec fn rendered(docs: Seq<ExtractedDocument>) -> Seq<char>
    decreases docs.len(),
{
    if docs.len() == 0 {
        Seq::empty()
    } else if docs.len() == 1 {
        section_of(docs[0])
    } else {
        rendered(docs.drop_last()) + "\n---\n\n"@ + section_of(docs.last())
    }
}

fn section(doc: &ExtractedDocument) -> (r: String)
    ensures
        r@ == section_of(*doc),
{
    let mut s = String::from_str("=== ");
    s.append(doc.metadata.source.as_str());
    s.append(" ===\n\n");
    s.append(doc.text.as_str());
    s.append("\n");
    s
}

/// Joins the documents into one text: each under a `=== source ===` header,
/// separated by a `---` line.
pub fn render_documents(docs: &Vec<ExtractedDocument>) -> (r: String)
    ensures
        r@ == rendered(docs@),
{
    let mut out = String::new();
    let mut i: usize = 0;
    while i < docs.len()
        invariant
            i <= docs@.len(),
            out@ == rendered(docs@.subrange(0, i as int)),
        decreases docs.len() - i,
    {
        if i > 0 {
            out.append("\n---\n\n");
        }
        let part = section(&docs[i]);
        out.append(part.as_str());
        proof {
            let now = docs@.subrange(0, i + 1);
            assert(now.drop_last() =~= docs@.subrange(0, i as int));
            assert(now.last() == docs@[i as int]);
        }
        i = i + 1;
    }
    assert(docs@.subrange(0, docs@.len() as int) =~= docs@);
    out
}

/// Orchestrates extraction under one configuration.
pub struct DocumentExtractor {
    pub ocr_client: OcrClient,
    pub config: Config,
}

impl DocumentExtractor {
    pub fn new(config: Config) -> (r: Self)
        ensures
            r.config == config,
            r.ocr_client.config == config,
    {
        let ocr_client = OcrClient::new(config.clone());
        DocumentExtractor { ocr_client, config }
    }

    /// Files the text extracted from the image at `image_path` as a document.
    pub fn document(&self, image_path: &str, text: String) -> (r: ExtractedDocument)
        ensures
            is_document_for(r, self.config, image_path@, text@),
    {
        let source = match file_name(image_path) {
            Some(n) => n,
            None => String::from_str("unknown"),
        };
        ExtractedDocument {
            text,
            format: self.config.extraction.output_format.clone(),
            metadata: DocumentMetadata { source, page_count: Some(1), confidence_bits: None },
        }
    }

    /// The outcome of extraction from the image at `image_path`, given the
    /// service's reply to its request: the document of the extracted text, or
    /// the error that the reply stands for.
    pub fn complete(&self, image_path: &str, reply: ApiReply) -> (r: Result<
        ExtractedDocument,
        XtractError,
    >)
        ensures
            match r {
                Ok(doc) => reply_outcome(reply, Ok(doc.text)) && is_document_for(
                    doc,
                    self.config,
                    image_path@,
                    doc.text@,
                ),
                Err(e) => reply_outcome(reply, Err(e)),
            },
    {
        match interpret_reply(reply) {
            Ok(text) => Ok(self.document(image_path, text)),
            Err(e) => Err(e),
        }
    }

    /// Keeps the documents of the images that succeeded, in input order; a
    /// failed image is skipped and never fails the batch.
    pub fn collect_batch(outcomes: Vec<Result<ExtractedDocument, XtractError>>) -> (r: Vec<
        ExtractedDocument,
    >)
        ensures
            r@ == successes(outcomes@),
    {
        let mut remaining = outcomes;
        let mut documents: Vec<ExtractedDocument> = Vec::new();
        while remaining.len() > 0
            invariant
                documents@ + successes(remaining@) == successes(outcomes@),
            decreases remaining.len(),
        {
            let ghost before = remaining@;
            let outcome = remaining.remove(0);
            assert(remaining@ =~= before.drop_first());
            match outcome {
                Ok(doc) => {
                    let ghost docs_before = documents@;
                    documents.push(doc);
                    assert(documents@ + successes(remaining@) =~= docs_before + successes(before));
                },
                Err(_) => {},
            }
        }
        assert(successes(remaining@) =~= seq![]);
        assert(documents@ =~= documents@ + successes(remaining@));
        documents
    }
}

/// A batch keeps one document for each image that succeeded and none for an
/// image that failed: the documents kept are the successes in input order
/// (the definition of `successes`), and their number is the number of inputs
/// less the number of failures.
pub proof fn lemma_batch_count(outcomes: Seq<Result<ExtractedDocument, XtractError>>)
    ensures
        successes(outcomes).len() + failure_count(outcomes) == outcomes.len(),
        failure_count(outcomes) == 0 ==> successes(outcomes).len() == outcomes.len(),
    decreases outcomes.len(),
{
    if outcomes.len() > 0 {
        lemma_batch_count(outcomes.drop_first());
    }
}

/// Every document kept by a batch is the document of one of its outcomes.
pub proof fn lemma_batch_keeps_only_successes(
    outcomes: Seq<Result<ExtractedDocument, XtractError>>,
    k: int,
)
    requires
        0 <= k < successes(outcomes).len(),
    ensures
        exists|i: int| 0 <= i < outcomes.len() && outcomes[i] == Ok::<ExtractedDocument, XtractError>(
            #[trigger] successes(outcomes)[k],
        ),
    decreases outcomes.len(),
{
    let rest = outcomes.drop_first();
    match outcomes[0] {
        Ok(d) => {
            if k == 0 {
                assert(outcomes[0] == Ok::<ExtractedDocument, XtractError>(successes(outcomes)[0]));
            } else {
                lemma_batch_keeps_only_successes(rest, k - 1);
                let i = choose|i: int| 0 <= i < rest.len() && rest[i] == Ok::<ExtractedDocument, XtractError>(
                    #[trigger] successes(rest)[k - 1],
                );
                assert(outcomes[i + 1] == rest[i]);
            }
        },
        Err(_) => {
            lemma_batch_keeps_only_successes(rest, k);
            let i = choose|i: int| 0 <= i < rest.len() && rest[i] == Ok::<ExtractedDocument, XtractError>(
                #[trigger] successes(rest)[k],
            );
            assert(outcomes[i + 1] == rest[i]);
        },
    }
}

/// A failed image between two that succeed is skipped: the batch holds the
/// documents of the other two, in their order.
pub proof fn lemma_batch_skips_failure_between_successes(
    first: ExtractedDocument,
    failure: XtractError,
    last: ExtractedDocument,
)
    ensures
        successes(
            seq![
                Ok::<ExtractedDocument, XtractError>(first),
                Err(failure),
                Ok::<ExtractedDocument, XtractError>(last),
            ],
        ) == seq![first, last],
{
    let o = seq![
        Ok::<ExtractedDocument, XtractError>(first),
        Err(failure),
        Ok::<ExtractedDocument, XtractError>(last),
    ];
    let o1 = o.drop_first();
    let o2 = o1.drop_first();
    assert(o1 =~= seq![Err(failure), Ok::<ExtractedDocument, XtractError>(last)]);
    assert(o2 =~= seq![Ok::<ExtractedDocument, XtractError>(last)]);
    assert(o2.drop_first() =~= Seq::<Result<ExtractedDocument, XtractError>>::empty());
    assert(successes(o2.drop_first()) =~= Seq::<ExtractedDocument>::empty());
    assert(successes(o2) =~= seq![last]);
    assert(successes(o1) =~= seq![last]);
    assert(successes(o) =~= seq![first, last]);
}

} // verus!
