//! The calls into the `pem` crate. Nothing in this file is proved: each
//! contract records what the crate's source shows of the function it names.

use vstd::prelude::*;

verus! {

/// `pem::Pem`, one decoded PEM block. Its fields are private to `pem`.
#[verifier::external_type_specification]
#[verifier::external_body]
pub struct ExPem(pem::Pem);

/// `pem::PemError`, the reason a text was not accepted as a PEM block.
#[verifier::external_type_specification]
#[verifier::external_body]
pub struct ExPemError(pem::PemError);

/// What a `pem::Pem` holds: its tag, its header lines in order, and its
/// binary contents.
pub uninterp spec fn pem_parts(block: pem::Pem) -> (Seq<char>, Seq<Seq<char>>, Seq<u8>);

/// What `pem::parse` makes of a text: the parts of the first block framed in
/// it, or `None` where it reports an error.
pub uninterp spec fn pem_parse(text: Seq<char>) -> Option<(Seq<char>, Seq<Seq<char>>, Seq<u8>)>;

/// The text that `pem::encode_config` writes, with `\n` line endings and the
/// default line width, for a block of the given tag, header lines and contents.
pub uninterp spec fn pem_text_lf(tag: Seq<char>, headers: Seq<Seq<char>>, contents: Seq<u8>) -> Seq<
    char,
>;

/// `pem::parse` on the bytes of `text`. The result is a function of the text
/// alone: the block that `pem_parse` names, or an error where it names none.
#[verifier::external_body]
pub(crate) fn parse_block(text: &str) -> (parsed: Result<pem::Pem, pem::PemError>)
    ensures
        match parsed {
            Ok(block) => pem_parse(text@) == Some(pem_parts(block)),
            Err(_) => pem_parse(text@) is None,
        },
{
    pem::parse(text)
}

/// `pem::Pem::tag`: the tag that the block holds.
#[verifier::external_body]
pub(crate) fn block_tag(block: &pem::Pem) -> (tag: &str)
    ensures
        tag@ == pem_parts(*block).0,
{
    block.tag()
}

/// `pem::Pem::new`: a block with the given tag and contents and no header.
#[verifier::external_body]
pub(crate) fn new_block(tag: &str, contents: &[u8]) -> (block: pem::Pem)
    ensures
        pem_parts(block) == (tag@, Seq::<Seq<char>>::empty(), contents@),
{
    pem::Pem::new(tag, contents)
}

/// `pem::encode_config` with `LineEnding::LF`. The text depends on nothing
/// but the block's tag, header lines and contents.
#[verifier::external_body]
pub(crate) fn encode_block_lf(block: &pem::Pem) -> (text: String)
    ensures
        text@ == pem_text_lf(pem_parts(*block).0, pem_parts(*block).1, pem_parts(*block).2),
{
    pem::encode_config(block, pem::EncodeConfig::new().set_line_ending(pem::LineEnding::LF))
}

} // verus!
