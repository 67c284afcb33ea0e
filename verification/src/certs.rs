//! The list of trusted CA certificates handed to the host: the certificates of
//! the system store followed by the bundled ones, each as PEM text with `\n`
//! line endings, every text once.

use vstd::prelude::*;
use crate::pem::{block_tag, encode_block_lf, new_block, parse_block, pem_parse, pem_text_lf};
use crate::text::same_text;

verus! {

/// The tags under which a bundled PEM block counts as a certificate.
pub open spec fn certificate_tag(tag: Seq<char>) -> bool {
    tag == "CERTIFICATE"@ || tag == "X509 CERTIFICATE"@ || tag == "TRUSTED CERTIFICATE"@
}

/// The PEM text of a certificate of the system store, given in DER.
pub open spec fn native_pem(der: Seq<u8>) -> Seq<char> {
    pem_text_lf("CERTIFICATE"@, Seq::<Seq<char>>::empty(), der)
}

/// The PEM text that a bundled entry contributes: its first block written
/// anew, if the entry parses and the block is tagged as a certificate.
pub open spec fn bundled_pem(raw: Seq<char>) -> Option<Seq<char>> {
    match pem_parse(raw) {
        Some(parts) => if certificate_tag(parts.0) {
            Some(pem_text_lf(parts.0, parts.1, parts.2))
        } else {
            None
        },
        None => None,
    }
}

/// The PEM texts of the system certificates, in order.
pub open spec fn native_pems(native: Seq<Seq<u8>>) -> Seq<Seq<char>> {
    native.map_values(|der: Seq<u8>| native_pem(der))
}

/// The PEM texts of the bundled entries that are kept, in order.
pub open spec fn bundled_pems(bundled: Seq<Seq<char>>) -> Seq<Seq<char>>
    decreases bundled.len(),
{
    if bundled.len() == 0 {
        Seq::empty()
    } else {
        let before = bundled_pems(bundled.drop_last());
        match bundled_pem(bundled.last()) {
            Some(text) => before.push(text),
            None => before,
        }
    }
}

/// `texts` with every repetition of an earlier element left out.
pub open spec fn distinct(texts: Seq<Seq<char>>) -> Seq<Seq<char>>
    decreases texts.len(),
{
    if texts.len() == 0 {
        Seq::empty()
    } else {
        let before = distinct(texts.drop_last());
        if before.contains(texts.last()) {
            before
        } else {
            before.push(texts.last())
        }
    }
}

/// The bundled entries as texts; no bundle is an empty one.
pub open spec fn bundle_view(bundled: Option<Vec<String>>) -> Seq<Seq<char>> {
    match bundled {
        Some(entries) => entries.deep_view(),
        None => Seq::empty(),
    }
}

/// The certificate list for the given system certificates and bundle.
pub open spec fn merged_certs(native: Seq<Seq<u8>>, bundled: Seq<Seq<char>>) -> Seq<Seq<char>> {
    distinct(native_pems(native) + bundled_pems(bundled))
}

/// `distinct` holds no text twice.
pub proof fn lemma_distinct_no_duplicates(texts: Seq<Seq<char>>)
    ensures
        distinct(texts).no_duplicates(),
    decreases texts.len(),
{
    if texts.len() > 0 {
        lemma_distinct_no_duplicates(texts.drop_last());
    }
}

/// `distinct` holds exactly the texts of its argument.
pub proof fn lemma_distinct_same_texts(texts: Seq<Seq<char>>)
    ensures
        forall|t: Seq<char>|
            #![trigger distinct(texts).contains(t)]
            #![trigger texts.contains(t)]
            distinct(texts).contains(t) <==> texts.contains(t),
    decreases texts.len(),
{
    if texts.len() > 0 {
        let before = texts.drop_last();
        lemma_distinct_same_texts(before);
        assert forall|t: Seq<char>|
            #![trigger distinct(texts).contains(t)]
            #![trigger texts.contains(t)]
            distinct(texts).contains(t) <==> texts.contains(t) by {
            if texts.contains(t) {
                let i = choose|i: int| 0 <= i < texts.len() && texts[i] == t;
                if i < texts.len() - 1 {
                    assert(before[i] == t);
                    assert(before.contains(t));
                    let j = choose|j: int| 0 <= j < distinct(before).len() && distinct(before)[j] == t;
                    assert(distinct(texts)[j] == t);
                } else {
                    assert(t == texts.last());
                    if !distinct(before).contains(t) {
                        assert(distinct(texts)[distinct(before).len() as int] == t);
                    }
                }
            }
            if distinct(texts).contains(t) {
                let j = choose|j: int| 0 <= j < distinct(texts).len() && distinct(texts)[j] == t;
                if j < distinct(before).len() {
                    assert(distinct(before)[j] == t);
                    assert(distinct(before).contains(t));
                    let i = choose|i: int| 0 <= i < before.len() && before[i] == t;
                    assert(texts[i] == t);
                } else {
                    assert(t == texts.last());
                    assert(texts[texts.len() - 1] == t);
                }
            }
        }
    }
}

/// `distinct` keeps the order of first occurrences: a sequence without
/// repetitions is left as it is.
pub proof fn lemma_distinct_of_distinct(texts: Seq<Seq<char>>)
    requires
        texts.no_duplicates(),
    ensures
        distinct(texts) == texts,
    decreases texts.len(),
{
    if texts.len() > 0 {
        let before = texts.drop_last();
        lemma_distinct_of_distinct(before);
        lemma_distinct_same_texts(before);
        if before.contains(texts.last()) {
            let i = choose|i: int| 0 <= i < before.len() && before[i] == texts.last();
            assert(texts[i] == texts[texts.len() - 1]);
        }
        assert(before.push(texts.last()) =~= texts);
    }
}

/// Whether a PEM block of this tag counts as a certificate.
pub fn is_certificate_tag(tag: &str) -> (kept: bool)
    ensures
        kept == certificate_tag(tag@),
{
    same_text(tag, "CERTIFICATE") || same_text(tag, "X509 CERTIFICATE") || same_text(
        tag,
        "TRUSTED CERTIFICATE",
    )
}

/// Whether `texts` holds `text`.
fn holds(texts: &Vec<String>, text: &String) -> (found: bool)
    ensures
        found == texts.deep_view().contains(text@),
{
    let mut i: usize = 0;
    while i < texts.len()
        invariant
            i <= texts.len(),
            forall|k: int| 0 <= k < i ==> texts.deep_view()[k] != text@,
        decreases texts.len() - i,
    {
        if texts[i] == *text {
            assert(texts.deep_view()[i as int] == text@);
            return true;
        }
        i += 1;
    }
    false
}

/// Leaves out of `texts` every repetition of an earlier text; what stays
/// keeps its order.
pub fn distinct_texts(texts: Vec<String>) -> (kept: Vec<String>)
    ensures
        kept.deep_view() == distinct(texts.deep_view()),
        kept.deep_view().no_duplicates(),
        forall|t: Seq<char>|
            #![trigger kept.deep_view().contains(t)]
            kept.deep_view().contains(t) <==> texts.deep_view().contains(t),
{
    let ghost all = texts.deep_view();
    let mut kept: Vec<String> = Vec::new();
    let mut i: usize = 0;
    assert(kept.deep_view() =~= distinct(all.take(0)));
    while i < texts.len()
        invariant
            i <= texts.len(),
            all == texts.deep_view(),
            kept.deep_view() == distinct(all.take(i as int)),
        decreases texts.len() - i,
    {
        proof {
            let next = all.take(i + 1);
            assert(next.drop_last() =~= all.take(i as int));
            assert(next.last() == texts[i as int]@);
        }
        if !holds(&kept, &texts[i]) {
            let ghost before = kept.deep_view();
            let text = texts[i].clone();
            kept.push(text);
            assert(kept.deep_view() =~= before.push(texts[i as int]@));
        }
        i += 1;
    }
    proof {
        assert(all.take(i as int) =~= all);
        lemma_distinct_no_duplicates(all);
        lemma_distinct_same_texts(all);
    }
    kept
}

/// The PEM text that one bundled entry contributes, if any.
fn normalize_bundled(raw: &str) -> (text: Option<String>)
    ensures
        match text {
            Some(t) => bundled_pem(raw@) == Some(t@),
            None => bundled_pem(raw@) is None,
        },
{
    match parse_block(raw) {
        Ok(block) => {
            if is_certificate_tag(block_tag(&block)) {
                Some(encode_block_lf(&block))
            } else {
                None
            }
        },
        Err(_) => None,
    }
}

/// Merges the certificates of the system store with the bundled ones.
///
/// `native_certs` holds the system certificates in DER; each is written as a
/// `CERTIFICATE` block. Of `bundled_certs`, an entry is kept where it parses as
/// PEM and its first block is tagged `CERTIFICATE`, `X509 CERTIFICATE` or
/// `TRUSTED CERTIFICATE`; that block is written anew, the rest of the entry is
/// left out, and other entries are skipped. The result holds each text once,
/// in the order of first occurrence, system certificates first.
pub fn ca_certs(native_certs: Vec<Vec<u8>>, bundled_certs: Option<Vec<String>>) -> (certs: Vec<
    String,
>)
    ensures
        certs.deep_view() == merged_certs(native_certs.deep_view(), bundle_view(bundled_certs)),
        certs.deep_view().no_duplicates(),
        forall|t: Seq<char>|
            #![trigger certs.deep_view().contains(t)]
            certs.deep_view().contains(t) <==> (native_pems(native_certs.deep_view())
                + bundled_pems(bundle_view(bundled_certs))).contains(t),
{
    let ghost native = native_certs.deep_view();
    let ghost bundled = bundle_view(bundled_certs);
    let mut texts: Vec<String> = Vec::new();
    let mut i: usize = 0;
    assert(texts.deep_view() =~= native_pems(native.take(0)));
    while i < native_certs.len()
        invariant
            i <= native_certs.len(),
            native == native_certs.deep_view(),
            texts.deep_view() == native_pems(native.take(i as int)),
        decreases native_certs.len() - i,
    {
        let block = new_block("CERTIFICATE", native_certs[i].as_slice());
        let text = encode_block_lf(&block);
        let ghost before = texts.deep_view();
        texts.push(text);
        proof {
            assert(native_certs[i as int]@ == native[i as int]);
            assert(texts.deep_view() =~= before.push(native_pem(native[i as int])));
            assert(texts.deep_view() =~= native_pems(native.take(i + 1)));
        }
        i += 1;
    }
    assert(native.take(i as int) =~= native);
    if let Some(entries) = bundled_certs {
        let mut j: usize = 0;
        assert(bundled.take(0) =~= Seq::<Seq<char>>::empty());
        assert(texts.deep_view() =~= native_pems(native) + bundled_pems(bundled.take(0)));
        while j < entries.len()
            invariant
                j <= entries.len(),
                bundled == entries.deep_view(),
                texts.deep_view() == native_pems(native) + bundled_pems(bundled.take(j as int)),
            decreases entries.len() - j,
        {
            let kept = normalize_bundled(entries[j].as_str());
            proof {
                let next = bundled.take(j + 1);
                assert(entries[j as int]@ == bundled[j as int]);
                assert(next.drop_last() =~= bundled.take(j as int));
                assert(next.last() == bundled[j as int]);
            }
            if let Some(text) = kept {
                let ghost before = texts.deep_view();
                let ghost added = text@;
                texts.push(text);
                assert(texts.deep_view() =~= before.push(added));
                assert(texts.deep_view() =~= native_pems(native) + bundled_pems(
                    bundled.take(j + 1),
                ));
            }
            j += 1;
        }
        assert(bundled.take(j as int) =~= bundled);
    } else {
        assert(texts.deep_view() =~= native_pems(native) + bundled_pems(bundled));
    }
    distinct_texts(texts)
}

} // verus!
