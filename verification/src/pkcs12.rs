use crate::error::Error;
use vstd::prelude::*;
use vstd::utf8::encode_utf8;

verus! {

#[verifier::external_type_specification]
#[verifier::external_body]
pub struct ExKeyStore(p12_keystore::KeyStore);

/// The private key chains that a keystore holds, in the order of their
/// aliases: each as the DER encodings of its certificates, leaf first, and
/// the DER encoding of its key.
pub uninterp spec fn keystore_key_chains(store: p12_keystore::KeyStore) -> Seq<
    (Seq<Seq<u8>>, Seq<u8>),
>;

/// What reading PKCS#12 data with a password gives: nothing when the data
/// cannot be read with it, else the private key chains of the keystore.
pub uninterp spec fn pkcs12_key_chains(data: Seq<u8>, password: Seq<char>) -> Option<
    Seq<(Seq<Seq<u8>>, Seq<u8>)>,
>;

/// The Base64 text of the contents of a PEM block, wrapped into lines of 64
/// characters, each ended by CR LF.
pub uninterp spec fn pem_base64_lines(contents: Seq<u8>) -> Seq<char>;

/// Reads a keystore from PKCS#12 data.
///
/// Calls `p12_keystore::KeyStore::from_pkcs12` with the strict import policy
/// (the crate's default) and drops the error's details. The contract claims
/// that the result depends on the data and the password alone, that it is
/// absent exactly when `pkcs12_key_chains` gives nothing, and that the key
/// chains of the keystore it returns are those that `pkcs12_key_chains`
/// gives.
#[verifier::external_body]
fn keystore_from_pkcs12(data: &[u8], password: &str) -> (r: Option<p12_keystore::KeyStore>)
    ensures
        r is Some <==> pkcs12_key_chains(data@, password@) is Some,
        r matches Some(store) ==> pkcs12_key_chains(data@, password@) == Some(
            keystore_key_chains(store),
        ),
{
    p12_keystore::KeyStore::from_pkcs12(data, password, p12_keystore::Pkcs12ImportPolicy::Strict).ok()
}

/// The first private key chain of a keystore.
///
/// Calls `p12_keystore::KeyStore::private_key_chain`, which walks the
/// entries in the order of their aliases and returns the first private key
/// chain; the certificates and the key are handed out as their DER bytes.
/// The contract claims that the result is absent exactly when the keystore
/// holds no private key chain, and is the first one otherwise.
#[verifier::external_body]
fn first_key_chain(store: &p12_keystore::KeyStore) -> (r: Option<(Vec<Vec<u8>>, Vec<u8>)>)
    ensures
        r is None <==> keystore_key_chains(*store).len() == 0,
        r matches Some(c) ==> c.0.deep_view() == keystore_key_chains(*store)[0].0 && c.1@
            == keystore_key_chains(*store)[0].1,
{
    store.private_key_chain().map(
        |(_, chain)|
            (
                chain.certs().iter().map(|c| c.as_der().to_vec()).collect(),
                chain.key().as_der().to_vec(),
            ),
    )
}

/// The PEM block of some contents under a tag.
pub open spec fn pem_block(tag: Seq<char>, contents: Seq<u8>) -> Seq<char> {
    "-----BEGIN "@ + tag + "-----\r\n"@ + pem_base64_lines(contents) + "-----END "@ + tag
        + "-----\r\n"@
}

/// Encodes contents as a PEM block.
///
/// Calls `pem::encode` on `pem::Pem::new(tag, contents)`, which has no
/// headers. The contract claims what its source shows: a BEGIN line with the
/// tag, the Base64 lines of the contents, an END line with the tag, every
/// line ended by CR LF; the Base64 lines themselves are only named.
#[verifier::external_body]
fn pem_encode(tag: &str, contents: &[u8]) -> (r: String)
    ensures
        r@ == "-----BEGIN "@ + tag@ + "-----\r\n"@ + pem_base64_lines(contents@) + "-----END "@
            + tag@ + "-----\r\n"@,
{
    pem::encode(&pem::Pem::new(tag, contents.to_vec()))
}

/// The UTF-8 bytes of the PEM blocks of certificates, one after the other.
pub open spec fn certificates_pem(certs: Seq<Seq<u8>>) -> Seq<u8>
    decreases certs.len(),
{
    if certs.len() == 0 {
        Seq::empty()
    } else {
        certificates_pem(certs.drop_last()) + encode_utf8(pem_block("CERTIFICATE"@, certs.last()))
    }
}

/// What reading PKCS#12 data gives: nothing when the data cannot be read
/// with the password or holds no private key chain; else, for the first
/// chain, the PEM blocks of its certificates and the PEM block of its key.
pub open spec fn pkcs12_pems(data: Seq<u8>, password: Seq<char>) -> Option<(Seq<u8>, Seq<u8>)> {
    match pkcs12_key_chains(data, password) {
        None => None,
        Some(chains) => if chains.len() == 0 {
            None
        } else {
            Some(
                (
                    certificates_pem(chains[0].0),
                    encode_utf8(pem_block("PRIVATE KEY"@, chains[0].1)),
                ),
            )
        },
    }
}

/// Parse PKCS#12 data, returning a concatenated PEM-encoded certificate
/// chain and PEM-encoded private key.
pub fn parse_pkcs12(pfx_data: &[u8], password: &str) -> (r: Result<(Vec<u8>, Vec<u8>), Error>)
    ensures
        match pkcs12_pems(pfx_data@, password@) {
            None => r == Err::<(Vec<u8>, Vec<u8>), Error>(Error::InvalidCertificate),
            Some((certs, key)) => r matches Ok((c, k)) && c@ == certs && k@ == key,
        },
{
    let keystore = match keystore_from_pkcs12(pfx_data, password) {
        Some(k) => k,
        None => return Err(Error::InvalidCertificate),
    };
    let (certs, key) = match first_key_chain(&keystore) {
        Some(c) => c,
        None => return Err(Error::InvalidCertificate),
    };
    let ghost chains = keystore_key_chains(keystore);
    let ghost ders = chains[0].0;
    assert(certs.deep_view() == ders);
    let mut cert_pem: Vec<u8> = Vec::new();
    let mut i: usize = 0;
    while i < certs.len()
        invariant
            i <= certs@.len(),
            certs.deep_view() == ders,
            cert_pem@ == certificates_pem(ders.take(i as int)),
        decreases certs@.len() - i,
    {
        let block = pem_encode("CERTIFICATE", certs[i].as_slice());
        let bytes = block.as_str().as_bytes();
        let ghost before = cert_pem@;
        cert_pem.extend_from_slice(bytes);
        proof {
            assert(ders[i as int] == certs@[i as int]@);
            assert(ders.take(i + 1).drop_last() =~= ders.take(i as int));
            assert(cert_pem@ =~= before + bytes@);
        }
        i = i + 1;
    }
    assert(ders.take(i as int) =~= ders);
    let key_block = pem_encode("PRIVATE KEY", key.as_slice());
    let key_bytes = key_block.as_str().as_bytes();
    let mut key_pem: Vec<u8> = Vec::new();
    key_pem.extend_from_slice(key_bytes);
    assert(key_pem@ =~= key_bytes@);
    Ok((cert_pem, key_pem))
}


/// The certificates of a chain are written one PEM block each, in chain
/// order: no certificates give nothing, and one more certificate at the end
/// adds its CERTIFICATE block after the blocks of the others.
pub proof fn lemma_certificates_pem_push(certs: Seq<Seq<u8>>, c: Seq<u8>)
    ensures
        certificates_pem(Seq::empty()) == Seq::<u8>::empty(),
        certificates_pem(certs.push(c)) == certificates_pem(certs) + encode_utf8(
            pem_block("CERTIFICATE"@, c),
        ),
        certificates_pem(certs.push(c)).len() > certificates_pem(certs).len(),
{
    assert(certs.push(c).drop_last() =~= certs);
    let block = pem_block("CERTIFICATE"@, c);
    reveal_strlit("-----BEGIN ");
    assert(block.len() > 0);
    assert(encode_utf8(block).len() > 0);
}

} // verus!
