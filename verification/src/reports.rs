//! Signed price reports. Clients sign the average price they computed; an
//! aggregator, or a server that keeps a ledger of submissions, accepts a
//! report only when its signature verifies.
//!
//! Prices are floating-point numbers in the programs that use this module;
//! here a price is carried by its IEEE-754 bit pattern (`f32::to_bits`), and
//! where a price is signed as text the caller renders that text.
use vstd::prelude::*;
use vstd::utf8::encode_utf8;
use crate::crypto::{
    check_signature, public_key_decodes, ed25519_accepts, ed25519_key_decodes, ed25519_public_key,
    ed25519_signature, signature_valid, signed_by, ClientIdentity,
};
use crate::text::{decimal, parse_u32_line, parse_unsigned, push_decimal, trim};

verus! {

// ---------------------------------------------------------------------
// Reports between clients and an aggregator
// ---------------------------------------------------------------------

/// The big-endian bytes of a 32-bit pattern (what `f32::to_be_bytes` gives
/// for the float with these bits).
pub open spec fn be_bytes(bits: u32) -> Seq<u8> {
    seq![
        (bits / 0x100_0000) as u8,
        ((bits / 0x1_0000) % 256) as u8,
        ((bits / 256) % 256) as u8,
        (bits % 256) as u8,
    ]
}

/// The four bytes are the big-endian encoding of the pattern: read back
/// most significant byte first, they give the same 32 bits.
pub proof fn law_be_bytes_decode(bits: u32)
    ensures
        be_bytes(bits).len() == 4,
        be_bytes(bits)[0] * 0x100_0000 + be_bytes(bits)[1] * 0x1_0000 + be_bytes(bits)[2] * 0x100
            + be_bytes(bits)[3] == bits,
{
    assert(bits == (bits / 0x100_0000) * 0x100_0000 + ((bits / 0x1_0000) % 256) * 0x1_0000 + ((
        bits / 256) % 256) * 0x100 + bits % 256) by (bit_vector);
    assert((bits / 0x100_0000) < 256) by (bit_vector);
}

/// The big-endian bytes of a 32-bit pattern.
pub fn price_bytes(bits: u32) -> (b: [u8; 4])
    ensures
        b@ == be_bytes(bits),
{
    let b = [
        (bits / 0x100_0000) as u8,
        ((bits / 0x1_0000) % 256) as u8,
        ((bits / 256) % 256) as u8,
        (bits % 256) as u8,
    ];
    assert(b@ =~= be_bytes(bits));
    b
}

/// A client's signed average price, as sent to the aggregator.
pub struct PriceReport {
    pub client_id: usize,
    pub price_bits: u32,
    pub signature: [u8; 64],
}

impl PriceReport {
    /// Signs the big-endian bytes of a price with a client's identity.
    pub fn signed(client_id: usize, price_bits: u32, identity: &ClientIdentity) -> (r: PriceReport)
        ensures
            r.client_id == client_id,
            r.price_bits == price_bits,
            r.signature@ == ed25519_signature(identity.secret_bytes(), be_bytes(price_bits)),
            signed_by(
                ed25519_public_key(identity.secret_bytes()),
                be_bytes(price_bits),
                r.signature@,
            ),
    {
        let bytes = price_bytes(price_bits);
        let signature = identity.sign(&bytes);
        PriceReport { client_id, price_bits, signature }
    }
}

/// Collects the prices whose signatures verify under the public key of the
/// client that reports them.
pub struct Aggregator {
    public_keys: Vec<[u8; 32]>,
    accepted: Vec<(usize, u32)>,
}

/// The abstract state of an aggregator: the clients' public keys and the
/// accepted reports, as (client, price bits), in order of arrival.
pub struct AggregatorView {
    pub public_keys: Seq<Seq<u8>>,
    pub accepted: Seq<(usize, u32)>,
}

impl View for Aggregator {
    type V = AggregatorView;

    closed spec fn view(&self) -> AggregatorView {
        AggregatorView {
            public_keys: self.public_keys@.map_values(|k: [u8; 32]| k@),
            accepted: self.accepted@,
        }
    }
}

impl Aggregator {
    /// An aggregator that knows the public key of each client, indexed by
    /// the client's number, and has accepted nothing yet.
    pub fn new(public_keys: Vec<[u8; 32]>) -> (a: Aggregator)
        ensures
            a@.public_keys == public_keys@.map_values(|k: [u8; 32]| k@),
            a@.accepted == Seq::<(usize, u32)>::empty(),
    {
        Aggregator { public_keys, accepted: Vec::new() }
    }

    /// Takes a report: it is accepted, and its price kept, exactly when its
    /// signature of the price's big-endian bytes is valid under the public
    /// key of the client it names. A report signed with that client's
    /// secret key is always accepted.
    pub fn receive(&mut self, report: &PriceReport) -> (ok: bool)
        requires
            report.client_id < old(self)@.public_keys.len(),
        ensures
            ok == signature_valid(
                old(self)@.public_keys[report.client_id as int],
                be_bytes(report.price_bits),
                report.signature@,
            ),
            signed_by(
                old(self)@.public_keys[report.client_id as int],
                be_bytes(report.price_bits),
                report.signature@,
            ) ==> ok,
            final(self)@.public_keys == old(self)@.public_keys,
            ok ==> final(self)@.accepted == old(self)@.accepted.push(
                (report.client_id, report.price_bits),
            ),
            !ok ==> final(self)@.accepted == old(self)@.accepted,
    {
        let bytes = price_bytes(report.price_bits);
        let key = &self.public_keys[report.client_id];
        let ok = match check_signature(key, &bytes, &report.signature) {
            Some(valid) => valid,
            None => false,
        };
        if ok {
            self.accepted.push((report.client_id, report.price_bits));
        }
        ok
    }

    /// The accepted reports, as (client, price bits), in order of arrival.
    pub fn accepted(&self) -> (a: &Vec<(usize, u32)>)
        ensures
            a@ == self@.accepted,
    {
        &self.accepted
    }
}

// ---------------------------------------------------------------------
// Submissions to a price server
// ---------------------------------------------------------------------

/// The text a client signs: its number, the price as text, and its name.
pub open spec fn signed_text(client_id: nat, price_text: Seq<char>, name: Seq<char>) -> Seq<char> {
    decimal(client_id) + price_text + name
}

/// The bytes a client signs: the UTF-8 encoding of `signed_text`.
pub open spec fn signed_bytes(client_id: nat, price_text: Seq<char>, name: Seq<char>) -> Seq<u8> {
    encode_utf8(signed_text(client_id, price_text, name))
}

/// The bytes a client signs for a submission.
pub fn signed_message(client_id: usize, price_text: &str, name: &str) -> (m: Vec<u8>)
    ensures
        m@ == signed_bytes(client_id as nat, price_text@, name@),
{
    let mut text = String::new();
    push_decimal(&mut text, client_id);
    text.append(price_text);
    text.append(name);
    assert(text@ == signed_text(client_id as nat, price_text@, name@));
    text.as_str().as_bytes_vec()
}

/// What a client sends to the price server.
pub struct Submission {
    pub client_id: usize,
    pub price_bits: u32,
    pub signature: Vec<u8>,
    pub public_key: Vec<u8>,
    pub name: String,
}

fn vec_of_array<const N: usize>(a: &[u8; N]) -> (v: Vec<u8>)
    ensures
        v@ == a@,
{
    let mut v: Vec<u8> = Vec::new();
    let mut i: usize = 0;
    while i < N
        invariant
            i <= N,
            a@.len() == N,
            v@ == a@.take(i as int),
        decreases N - i,
    {
        assert(a@.take(i + 1) =~= a@.take(i as int).push(a@[i as int]));
        v.push(a[i]);
        i = i + 1;
    }
    assert(a@.take(N as int) =~= a@);
    v
}

fn array_of_vec<const N: usize>(v: &Vec<u8>) -> (a: [u8; N])
    requires
        v@.len() == N,
    ensures
        a@ == v@,
{
    let mut a = [0u8; N];
    let mut i: usize = 0;
    while i < N
        invariant
            i <= N,
            v@.len() == N,
            a@.len() == N,
            forall|j: int| 0 <= j < i ==> a@[j] == v@[j],
        decreases N - i,
    {
        a[i] = v[i];
        i = i + 1;
    }
    assert(a@ =~= v@);
    a
}

impl Submission {
    /// A submission of a price signed by a client: the client's number, its
    /// name and the price text are signed together.
    pub fn create(
        identity: &ClientIdentity,
        client_id: usize,
        price_bits: u32,
        price_text: &str,
        name: &str,
    ) -> (s: Submission)
        ensures
            s.client_id == client_id,
            s.price_bits == price_bits,
            s.name@ == name@,
            s.public_key@ == ed25519_public_key(identity.secret_bytes()),
            s.signature@ == ed25519_signature(
                identity.secret_bytes(),
                signed_bytes(client_id as nat, price_text@, name@),
            ),
            s.public_key@.len() == 32,
            s.signature@.len() == 64,
            signed_by(s.public_key@, signed_bytes(client_id as nat, price_text@, name@), s.signature@),
    {
        let message = signed_message(client_id, price_text, name);
        let signature = identity.sign(message.as_slice());
        let public_key = identity.public_key();
        Submission {
            client_id,
            price_bits,
            signature: vec_of_array(&signature),
            public_key: vec_of_array(&public_key),
            name: name.to_owned(),
        }
    }
}

/// Why a submission could not be checked.
pub enum SubmissionError {
    /// The public key does not have the 32 bytes of an Ed25519 public key.
    PublicKeyLength,
    /// The public key does not decode to a curve point.
    InvalidPublicKey,
    /// The signature does not have the 64 bytes of an Ed25519 signature.
    SignatureLength,
}

/// What checking a submission against a price text gives: the first
/// problem among a public key of the wrong length, a public key that does
/// not decode and a signature of the wrong length, else whether the
/// signature of the number, price text and name verifies.
pub open spec fn submission_check(sub: Submission, price_text: Seq<char>) -> Result<
    bool,
    SubmissionError,
> {
    if sub.public_key@.len() != 32 {
        Err(SubmissionError::PublicKeyLength)
    } else if !ed25519_key_decodes(sub.public_key@) {
        Err(SubmissionError::InvalidPublicKey)
    } else if sub.signature@.len() != 64 {
        Err(SubmissionError::SignatureLength)
    } else {
        Ok(
            ed25519_accepts(
                sub.public_key@,
                signed_bytes(sub.client_id as nat, price_text, sub.name@),
                sub.signature@,
            ),
        )
    }
}

/// Checks a submission's signature of its number, price text and name
/// under the public key it carries. A submission made by
/// `Submission::create` with the same price text always passes.
pub fn check_submission(sub: &Submission, price_text: &str) -> (r: Result<bool, SubmissionError>)
    ensures
        r == submission_check(*sub, price_text@),
        sub.public_key@.len() == 32 && sub.signature@.len() == 64 && signed_by(
            sub.public_key@,
            signed_bytes(sub.client_id as nat, price_text@, sub.name@),
            sub.signature@,
        ) ==> r == Ok::<bool, SubmissionError>(true),
{
    if sub.public_key.len() != 32 {
        return Err(SubmissionError::PublicKeyLength);
    }
    let key: [u8; 32] = array_of_vec(&sub.public_key);
    if !public_key_decodes(&key) {
        proof {
            if signed_by(
                sub.public_key@,
                signed_bytes(sub.client_id as nat, price_text@, sub.name@),
                sub.signature@,
            ) {
                let s = choose|secret: Seq<u8>|
                    secret.len() == 32 && ed25519_public_key(secret) == sub.public_key@
                        && #[trigger] ed25519_signature(
                        secret,
                        signed_bytes(sub.client_id as nat, price_text@, sub.name@),
                    ) == sub.signature@;
                assert(ed25519_public_key(s) == key@);
            }
        }
        return Err(SubmissionError::InvalidPublicKey);
    }
    if sub.signature.len() != 64 {
        return Err(SubmissionError::SignatureLength);
    }
    let signature: [u8; 64] = array_of_vec(&sub.signature);
    let message = signed_message(sub.client_id, price_text, sub.name.as_str());
    match check_signature(&key, message.as_slice(), &signature) {
        Some(b) => Ok(b),
        None => Err(SubmissionError::InvalidPublicKey),
    }
}

/// The submissions a price server accepted, and their prices.
pub struct Ledger {
    entries: Vec<Submission>,
    prices: Vec<u32>,
    price_texts: Ghost<Seq<Seq<char>>>,
}

/// The abstract state of a ledger: the accepted submissions, their price
/// bits, and the price texts their signatures were checked against.
pub struct LedgerView {
    pub entries: Seq<Submission>,
    pub prices: Seq<u32>,
    pub price_texts: Seq<Seq<char>>,
}

impl View for Ledger {
    type V = LedgerView;

    closed spec fn view(&self) -> LedgerView {
        LedgerView { entries: self.entries@, prices: self.prices@, price_texts: self.price_texts@ }
    }
}

/// The invariant of a ledger: one price per entry, the entry's own, and
/// every entry's signature valid for its number, price text and name.
pub open spec fn ledger_wf(v: LedgerView) -> bool {
    &&& v.prices.len() == v.entries.len()
    &&& v.price_texts.len() == v.entries.len()
    &&& forall|i: int|
        0 <= i < v.entries.len() ==> {
            &&& v.prices[i] == (#[trigger] v.entries[i]).price_bits
            &&& signature_valid(
                v.entries[i].public_key@,
                signed_bytes(v.entries[i].client_id as nat, v.price_texts[i], v.entries[i].name@),
                v.entries[i].signature@,
            )
        }
}

impl Ledger {
    /// An empty ledger.
    pub fn new() -> (l: Ledger)
        ensures
            l@.entries.len() == 0,
            ledger_wf(l@),
    {
        Ledger { entries: Vec::new(), prices: Vec::new(), price_texts: Ghost(Seq::empty()) }
    }

    /// Checks a submission and, when its signature is valid, keeps it and
    /// its price. A submission signed with the secret key of the public key
    /// it carries is always kept. Only valid submissions are ever kept.
    pub fn record(&mut self, sub: Submission, price_text: &str) -> (r: Result<bool, SubmissionError>)
        requires
            ledger_wf(old(self)@),
        ensures
            ledger_wf(final(self)@),
            r == submission_check(sub, price_text@),
            sub.public_key@.len() == 32 && sub.signature@.len() == 64 && signed_by(
                sub.public_key@,
                signed_bytes(sub.client_id as nat, price_text@, sub.name@),
                sub.signature@,
            ) ==> r == Ok::<bool, SubmissionError>(true),
            r matches Ok(true) ==> final(self)@.entries == old(self)@.entries.push(sub)
                && final(self)@.prices == old(self)@.prices.push(sub.price_bits),
            !(r matches Ok(true)) ==> final(self)@.entries == old(self)@.entries
                && final(self)@.prices == old(self)@.prices,
    {
        let r = check_submission(&sub, price_text);
        if let Ok(true) = r {
            let ghost text = price_text@;
            self.prices.push(sub.price_bits);
            self.entries.push(sub);
            self.price_texts = Ghost(self.price_texts@.push(text));
            proof {
                let v = self@;
                assert forall|i: int| 0 <= i < v.entries.len() implies {
                    &&& v.prices[i] == (#[trigger] v.entries[i]).price_bits
                    &&& signature_valid(
                        v.entries[i].public_key@,
                        signed_bytes(
                            v.entries[i].client_id as nat,
                            v.price_texts[i],
                            v.entries[i].name@,
                        ),
                        v.entries[i].signature@,
                    )
                } by {
                    if i < v.entries.len() - 1 {
                        assert(v.entries[i] == old(self)@.entries[i]);
                    }
                }
            }
        }
        r
    }

    /// The accepted submissions, in order of arrival.
    pub fn entries(&self) -> (e: &Vec<Submission>)
        ensures
            e@ == self@.entries,
    {
        &self.entries
    }

    /// The price bits of the accepted submissions, in order of arrival.
    pub fn prices(&self) -> (p: &Vec<u32>)
        ensures
            p@ == self@.prices,
    {
        &self.prices
    }
}

/// Reads how many prices a client collects per round: a number typed by
/// the user, at least 5 (`line.trim().parse::<u32>()` and `>= 5`).
pub fn parse_round_count(line: &str) -> (r: Option<u32>)
    ensures
        r == (match parse_unsigned(trim(line@), u32::MAX as nat) {
            Some(v) => if v >= 5 {
                Some(v as u32)
            } else {
                None
            },
            None => None,
        }),
{
    match parse_u32_line(line) {
        Some(n) => if n >= 5 {
            Some(n)
        } else {
            None
        },
        None => None,
    }
}

} // verus!
