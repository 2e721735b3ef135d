//! BitComet WebUI sign-in: the client id, the encrypted authentication packet, and the
//! steps that turn credentials into a device token.
use vstd::prelude::*;
use aes::Aes256;
use base64::Engine;
use cbc::cipher::{block_padding::Pkcs7, BlockEncryptMut, KeyIvInit};
use hmac::Mac;
use rand::RngCore;
use sha2::Digest;
use crate::config::owned;
use crate::controller::BitCometClient;
use crate::encoding::{base64_encode, hex_lower, hex_lower_exec};
use crate::json::{JsonValue, index, as_str, get_member, get_str};
use crate::clients::{bitcomet_error, bitcomet_error_message, is_str, has_keys, member_at};
use crate::text::{trim, chars_of, extend_str, string_of, trim_str};

verus! {

// ---------------------------------------------------------------------------
// Outside computations
// ---------------------------------------------------------------------------

/// What `sha2::Sha256::digest` returns for the given bytes.
pub uninterp spec fn sha256(data: Seq<u8>) -> Seq<u8>;

/// What `pbkdf2::pbkdf2_hmac::<sha1::Sha1>` writes into a buffer of `len` bytes.
pub uninterp spec fn pbkdf2_hmac_sha1(password: Seq<u8>, salt: Seq<u8>, rounds: u32, len: nat) -> Seq<u8>;

/// What AES-256 in CBC mode with PKCS#7 padding (`cbc::Encryptor<aes::Aes256>`,
/// `encrypt_padded_vec_mut::<Pkcs7>`) makes of `plain` under `key` and `iv`.
pub uninterp spec fn aes256_cbc_pkcs7(key: Seq<u8>, iv: Seq<u8>, plain: Seq<u8>) -> Seq<u8>;

/// What HMAC-SHA-256 (`hmac::Hmac<sha2::Sha256>`) computes over `data` with `key`.
pub uninterp spec fn hmac_sha256(key: Seq<u8>, data: Seq<u8>) -> Seq<u8>;

/// `sha2::Sha256::digest`: the SHA-256 digest of `data`, which is 32 bytes long.
#[verifier::external_body]
fn sha256_digest(data: &[u8]) -> (r: Vec<u8>)
    ensures
        r@ == sha256(data@),
        r@.len() == 32,
{
    sha2::Sha256::digest(data).to_vec()
}

/// `pbkdf2::pbkdf2_hmac::<sha1::Sha1>` into a 32-byte key.
#[verifier::external_body]
fn pbkdf2_sha1_key(password: &[u8], salt: &[u8], rounds: u32) -> (r: Vec<u8>)
    ensures
        r@ == pbkdf2_hmac_sha1(password@, salt@, rounds, 32),
        r@.len() == 32,
{
    let mut key = [0u8; 32];
    pbkdf2::pbkdf2_hmac::<sha1::Sha1>(password, salt, rounds, &mut key);
    key.to_vec()
}

/// `cbc::Encryptor::<aes::Aes256>::new(key, iv).encrypt_padded_vec_mut::<Pkcs7>(plain)`.
/// The key must be 32 bytes and the IV 16, as the cipher's fixed sizes are. PKCS#7 always
/// pads, with 1 to 16 bytes, so the ciphertext is the next multiple of 16 above the
/// input's length.
#[verifier::external_body]
fn aes256_cbc_encrypt(key: &[u8], iv: &[u8], plain: &[u8]) -> (r: Vec<u8>)
    requires
        key@.len() == 32,
        iv@.len() == 16,
    ensures
        r@ == aes256_cbc_pkcs7(key@, iv@, plain@),
        r@.len() == 16 * (plain@.len() / 16 + 1),
{
    cbc::Encryptor::<Aes256>::new(key.into(), iv.into()).encrypt_padded_vec_mut::<Pkcs7>(plain)
}

/// `hmac::Hmac::<sha2::Sha256>::new_from_slice(key)`, then `update(data)` and
/// `finalize`: the 32-byte tag. HMAC takes keys of every length, so the key-length error
/// of `new_from_slice` never comes (its source returns `Ok` unconditionally); the `Err`
/// arm only converts the declared error type.
#[verifier::external_body]
fn hmac_sha256_tag(key: &[u8], data: &[u8]) -> (r: Result<Vec<u8>, String>)
    ensures
        r is Ok,
        r matches Ok(tag) ==> tag@ == hmac_sha256(key@, data@) && tag@.len() == 32,
{
    match <hmac::Hmac<sha2::Sha256> as Mac>::new_from_slice(key) {
        Ok(mut mac) => {
            mac.update(data);
            Ok(mac.finalize().into_bytes().to_vec())
        },
        Err(err) => Err(err.to_string()),
    }
}

/// `base64::engine::general_purpose::STANDARD.encode`: standard padded Base64.
#[verifier::external_body]
fn base64_standard(bytes: &[u8]) -> (r: String)
    ensures
        r@ == base64_encode(bytes@),
{
    base64::engine::general_purpose::STANDARD.encode(bytes)
}

/// `rand::thread_rng().fill_bytes`: `n` random bytes. Nothing is known of their values.
#[verifier::external_body]
fn random_bytes(n: usize) -> (r: Vec<u8>)
    ensures
        r@.len() == n,
{
    let mut buf = vec![0u8; n];
    rand::thread_rng().fill_bytes(&mut buf);
    buf
}

// ---------------------------------------------------------------------------
// Client id
// ---------------------------------------------------------------------------

/// The seed of the client id: this tool's name, the computer's name and the program
/// directory.
pub open spec fn client_id_seed(computer_name: Seq<char>, app_dir: Seq<char>) -> Seq<char> {
    "download-client-game-speed-limiter:"@ + computer_name + ":"@ + app_dir
}

/// The 16 bytes of a version-4 UUID taken from a digest: version 4 in byte 6, the
/// RFC 4122 variant in byte 8.
pub open spec fn uuid_bytes(d: Seq<u8>) -> Seq<u8> {
    d.take(16).update(6, ((d[6] % 16) + 64) as u8).update(8, ((d[8] % 64) + 128) as u8)
}

/// Two lower-case hex digits per byte.
pub open spec fn hex_pairs(b: Seq<u8>) -> Seq<char>
    decreases b.len(),
{
    if b.len() == 0 {
        Seq::empty()
    } else {
        hex_pairs(b.drop_last()) + seq![hex_lower((b.last() / 16) as int), hex_lower((b.last() % 16) as int)]
    }
}

/// The UUID text of 16 bytes: groups of 4, 2, 2, 2 and 6 bytes joined by `-`.
pub open spec fn uuid_text(b: Seq<u8>) -> Seq<char> {
    hex_pairs(b.subrange(0, 4)) + seq!['-'] + hex_pairs(b.subrange(4, 6)) + seq!['-'] + hex_pairs(b.subrange(6, 8))
        + seq!['-'] + hex_pairs(b.subrange(8, 10)) + seq!['-'] + hex_pairs(b.subrange(10, 16))
}

/// A lower-case hexadecimal digit.
pub open spec fn is_hex_digit(c: char) -> bool {
    ('0' <= c && c <= '9') || ('a' <= c && c <= 'f')
}

/// The text of a version-4 UUID with the RFC 4122 variant: 36 characters, dashes at 8,
/// 13, 18 and 23, lower-case hex digits elsewhere, `4` at 14 and one of `8`, `9`, `a`,
/// `b` at 19.
pub open spec fn uuid_v4_layout(s: Seq<char>) -> bool {
    &&& s.len() == 36
    &&& forall|i: int|
        0 <= i < 36 ==> if i == 8 || i == 13 || i == 18 || i == 23 {
            s[i] == '-'
        } else {
            is_hex_digit(#[trigger] s[i])
        }
    &&& s[14] == '4'
    &&& (s[19] == '8' || s[19] == '9' || s[19] == 'a' || s[19] == 'b')
}

proof fn lemma_hex_digit(d: int)
    requires
        0 <= d < 16,
    ensures
        is_hex_digit(hex_lower(d)),
{
}

proof fn lemma_hex_pairs(b: Seq<u8>)
    ensures
        hex_pairs(b).len() == 2 * b.len(),
        forall|k: int|
            0 <= k < b.len() ==> hex_pairs(b)[2 * k] == hex_lower((b[k] / 16) as int) && hex_pairs(b)[2 * k + 1]
                == hex_lower((b[k] % 16) as int),
    decreases b.len(),
{
    if b.len() > 0 {
        lemma_hex_pairs(b.drop_last());
        assert forall|k: int| 0 <= k < b.len() implies hex_pairs(b)[2 * k] == hex_lower((b[k] / 16) as int)
            && hex_pairs(b)[2 * k + 1] == hex_lower((b[k] % 16) as int) by {
            if k < b.len() - 1 {
                assert(b.drop_last()[k] == b[k]);
            }
        }
    }
}

/// Every character of the hex text of some bytes is a hex digit.
proof fn lemma_hex_pairs_digits(b: Seq<u8>)
    ensures
        forall|i: int| 0 <= i < hex_pairs(b).len() ==> is_hex_digit(#[trigger] hex_pairs(b)[i]),
{
    lemma_hex_pairs(b);
    assert forall|i: int| 0 <= i < hex_pairs(b).len() implies is_hex_digit(#[trigger] hex_pairs(b)[i]) by {
        let k = i / 2;
        if i % 2 == 0 {
            assert(i == 2 * k);
            lemma_hex_digit((b[k] / 16) as int);
        } else {
            assert(i == 2 * k + 1);
            lemma_hex_digit((b[k] % 16) as int);
        }
    }
}

/// The UUID text of 16 bytes with version 4 in byte 6 and the RFC 4122 variant in byte 8
/// has the version-4 layout.
pub proof fn lemma_uuid_layout(b: Seq<u8>)
    requires
        b.len() == 16,
        b[6] / 16 == 4,
        8 <= b[8] / 16 <= 11,
    ensures
        uuid_v4_layout(uuid_text(b)),
{
    let p0 = b.subrange(0, 4);
    let p1 = b.subrange(4, 6);
    let p2 = b.subrange(6, 8);
    let p3 = b.subrange(8, 10);
    let p4 = b.subrange(10, 16);
    lemma_hex_pairs(p0);
    lemma_hex_pairs(p1);
    lemma_hex_pairs(p2);
    lemma_hex_pairs(p3);
    lemma_hex_pairs(p4);
    lemma_hex_pairs_digits(p0);
    lemma_hex_pairs_digits(p1);
    lemma_hex_pairs_digits(p2);
    lemma_hex_pairs_digits(p3);
    lemma_hex_pairs_digits(p4);
    let s = uuid_text(b);
    assert(s.len() == 36);
    assert forall|i: int|
        0 <= i < 36 implies if i == 8 || i == 13 || i == 18 || i == 23 {
            s[i] == '-'
        } else {
            is_hex_digit(#[trigger] s[i])
        } by {
        if i < 8 {
            assert(s[i] == hex_pairs(p0)[i]);
        } else if i == 8 {
        } else if i < 13 {
            assert(s[i] == hex_pairs(p1)[i - 9]);
        } else if i == 13 {
        } else if i < 18 {
            assert(s[i] == hex_pairs(p2)[i - 14]);
        } else if i == 18 {
        } else if i < 23 {
            assert(s[i] == hex_pairs(p3)[i - 19]);
        } else if i == 23 {
        } else {
            assert(s[i] == hex_pairs(p4)[i - 24]);
        }
    }
    assert(p2[0] == b[6]);
    assert(p3[0] == b[8]);
    assert(s[14] == hex_pairs(p2)[0]);
    assert(s[19] == hex_pairs(p3)[0]);
}

pub open spec fn client_id(computer_name: Seq<char>, app_dir: Seq<char>) -> Seq<char> {
    uuid_text(uuid_bytes(sha256(vstd::utf8::encode_utf8(client_id_seed(computer_name, app_dir)))))
}

fn push_hex_pairs(out: &mut Vec<char>, b: &Vec<u8>, from: usize, to: usize)
    requires
        from <= to <= b.len(),
    ensures
        final(out)@ == old(out)@ + hex_pairs(b@.subrange(from as int, to as int)),
{
    let mut i = from;
    assert(b@.subrange(from as int, from as int) =~= Seq::<u8>::empty());
    while i < to
        invariant
            from <= i <= to <= b.len(),
            out@ == old(out)@ + hex_pairs(b@.subrange(from as int, i as int)),
        decreases to - i,
    {
        let x = b[i];
        out.push(hex_lower_exec(x / 16));
        out.push(hex_lower_exec(x % 16));
        assert(b@.subrange(from as int, i + 1).drop_last() =~= b@.subrange(from as int, i as int));
        assert(out@ =~= old(out)@ + hex_pairs(b@.subrange(from as int, i + 1)));
        i += 1;
    }
}

/// The id with which this installation identifies itself to BitComet: a version-4 UUID
/// made from the SHA-256 digest of a seed of the computer's name and the program
/// directory, so that it stays the same between runs.
pub fn bitcomet_client_id(computer_name: &str, app_dir: &str) -> (id: String)
    ensures
        id@ == client_id(computer_name@, app_dir@),
        uuid_v4_layout(id@),
{
    let mut seed = chars_of("download-client-game-speed-limiter:");
    extend_str(&mut seed, computer_name);
    extend_str(&mut seed, ":");
    extend_str(&mut seed, app_dir);
    let seed_text = string_of(&seed);
    let digest = sha256_digest(seed_text.as_str().as_bytes());
    let mut bytes: Vec<u8> = Vec::new();
    let mut i: usize = 0;
    while i < 16
        invariant
            i <= 16,
            digest@.len() == 32,
            bytes@ == digest@.take(i as int),
        decreases 16 - i,
    {
        bytes.push(digest[i]);
        assert(digest@.take(i as int).push(digest@[i as int]) =~= digest@.take(i + 1));
        i += 1;
    }
    let b6 = bytes[6];
    let b8 = bytes[8];
    bytes.set(6, (b6 % 16) + 64);
    bytes.set(8, (b8 % 64) + 128);
    assert(bytes@ =~= uuid_bytes(digest@));
    let mut out: Vec<char> = Vec::new();
    push_hex_pairs(&mut out, &bytes, 0, 4);
    out.push('-');
    push_hex_pairs(&mut out, &bytes, 4, 6);
    out.push('-');
    push_hex_pairs(&mut out, &bytes, 6, 8);
    out.push('-');
    push_hex_pairs(&mut out, &bytes, 8, 10);
    out.push('-');
    push_hex_pairs(&mut out, &bytes, 10, 16);
    assert(out@ =~= uuid_text(bytes@));
    proof {
        assert(bytes@[6] / 16 == 4);
        assert(8 <= bytes@[8] / 16 <= 11);
        lemma_uuid_layout(bytes@);
    }
    string_of(&out)
}

// ---------------------------------------------------------------------------
// Authentication packet
// ---------------------------------------------------------------------------

/// The number of PBKDF2 rounds of both keys.
pub const KEY_ROUNDS: u32 = 10000;

/// The packet before its tag: format 3.1, the two salts, the IV, and the ciphertext of
/// the plain text under the key derived from the password and the first salt.
pub open spec fn packet_body(plain: Seq<char>, password: Seq<char>, salt_key: Seq<u8>, salt_hmac: Seq<u8>, iv: Seq<u8>) -> Seq<u8> {
    let pw = vstd::utf8::encode_utf8(password);
    seq![3u8, 1u8] + salt_key + salt_hmac + iv + aes256_cbc_pkcs7(
        pbkdf2_hmac_sha1(pw, salt_key, 10000, 32),
        iv,
        vstd::utf8::encode_utf8(plain),
    )
}

/// The packet followed by its HMAC-SHA-256 tag under the key derived from the password
/// and the second salt.
pub open spec fn auth_packet(plain: Seq<char>, password: Seq<char>, salt_key: Seq<u8>, salt_hmac: Seq<u8>, iv: Seq<u8>) -> Seq<u8> {
    let body = packet_body(plain, password, salt_key, salt_hmac, iv);
    let pw = vstd::utf8::encode_utf8(password);
    body + hmac_sha256(pbkdf2_hmac_sha1(pw, salt_hmac, 10000, 32), body)
}

/// The Base64 text of the tagged packet.
pub open spec fn encrypted_text(plain: Seq<char>, password: Seq<char>, salt_key: Seq<u8>, salt_hmac: Seq<u8>, iv: Seq<u8>) -> Seq<char> {
    base64_encode(auth_packet(plain, password, salt_key, salt_hmac, iv))
}

/// The layout of a tagged packet for `n` bytes of plain text: format bytes 3 and 1, the
/// key salt, the tag salt, the IV, the ciphertext (padded to the next multiple of 16
/// above `n`), and a 32-byte tag over everything before it.
pub open spec fn packet_layout(p: Seq<u8>, n: nat, salt_key: Seq<u8>, salt_hmac: Seq<u8>, iv: Seq<u8>) -> bool {
    &&& p.len() == 66 + 16 * (n / 16 + 1)
    &&& p[0] == 3u8
    &&& p[1] == 1u8
    &&& p.subrange(2, 10) == salt_key
    &&& p.subrange(10, 18) == salt_hmac
    &&& p.subrange(18, 34) == iv
}

/// The ciphertext and the tag where the layout puts them.
pub open spec fn packet_parts(p: Seq<u8>, plain: Seq<char>, password: Seq<char>, salt_key: Seq<u8>, salt_hmac: Seq<u8>, iv: Seq<u8>) -> bool {
    let pw = vstd::utf8::encode_utf8(password);
    &&& p.subrange(34, p.len() - 32) == aes256_cbc_pkcs7(
        pbkdf2_hmac_sha1(pw, salt_key, 10000, 32),
        iv,
        vstd::utf8::encode_utf8(plain),
    )
    &&& p.subrange(p.len() - 32, p.len() as int) == hmac_sha256(
        pbkdf2_hmac_sha1(pw, salt_hmac, 10000, 32),
        p.subrange(0, p.len() - 32),
    )
}

/// The authentication packet for the given salts and IV.
pub fn bitcomet_encrypt_with(plain_text: &str, password: &str, salt_key: &[u8], salt_hmac: &[u8], iv: &[u8]) -> (r: Result<String, String>)
    requires
        salt_key@.len() == 8,
        salt_hmac@.len() == 8,
        iv@.len() == 16,
    ensures
        r matches Ok(text) && text@ == encrypted_text(plain_text@, password@, salt_key@, salt_hmac@, iv@),
        packet_layout(
            auth_packet(plain_text@, password@, salt_key@, salt_hmac@, iv@),
            vstd::utf8::encode_utf8(plain_text@).len(),
            salt_key@,
            salt_hmac@,
            iv@,
        ),
        packet_parts(
            auth_packet(plain_text@, password@, salt_key@, salt_hmac@, iv@),
            plain_text@,
            password@,
            salt_key@,
            salt_hmac@,
            iv@,
        ),
{
    let pw = password.as_bytes();
    let key = pbkdf2_sha1_key(pw, salt_key, KEY_ROUNDS);
    let hmac_key = pbkdf2_sha1_key(pw, salt_hmac, KEY_ROUNDS);
    let ciphertext = aes256_cbc_encrypt(key.as_slice(), iv, plain_text.as_bytes());
    let mut packet: Vec<u8> = Vec::new();
    packet.push(3);
    packet.push(1);
    extend_bytes(&mut packet, salt_key);
    extend_bytes(&mut packet, salt_hmac);
    extend_bytes(&mut packet, iv);
    extend_bytes(&mut packet, ciphertext.as_slice());
    assert(packet@ =~= packet_body(plain_text@, password@, salt_key@, salt_hmac@, iv@));
    let ghost body = packet@;
    let tag = hmac_sha256_tag(hmac_key.as_slice(), packet.as_slice())?;
    extend_bytes(&mut packet, tag.as_slice());
    proof {
        let p = packet@;
        assert(p =~= auth_packet(plain_text@, password@, salt_key@, salt_hmac@, iv@));
        assert(p.subrange(2, 10) =~= salt_key@);
        assert(p.subrange(10, 18) =~= salt_hmac@);
        assert(p.subrange(18, 34) =~= iv@);
        assert(p.subrange(34, p.len() - 32) =~= ciphertext@);
        assert(p.subrange(0, p.len() - 32) =~= body);
        assert(p.subrange(p.len() - 32, p.len() as int) =~= tag@);
    }
    Ok(base64_standard(packet.as_slice()))
}

fn extend_bytes(out: &mut Vec<u8>, b: &[u8])
    ensures
        final(out)@ == old(out)@ + b@,
{
    let mut i: usize = 0;
    while i < b.len()
        invariant
            i <= b.len(),
            out@ == old(out)@ + b@.take(i as int),
        decreases b.len() - i,
    {
        out.push(b[i]);
        assert(b@.take(i as int).push(b@[i as int]) =~= b@.take(i + 1));
        i += 1;
    }
    assert(b@.take(b.len() as int) =~= b@);
}

/// The authentication packet for freshly drawn random salts and IV.
pub fn bitcomet_encrypt(plain_text: &str, password: &str) -> (r: Result<String, String>)
    ensures
        r matches Ok(text) && exists|sk: Seq<u8>, sh: Seq<u8>, iv: Seq<u8>| sk.len() == 8 && sh.len() == 8
            && iv.len() == 16 && text@ == encrypted_text(plain_text@, password@, sk, sh, iv) && packet_layout(
            auth_packet(plain_text@, password@, sk, sh, iv),
            vstd::utf8::encode_utf8(plain_text@).len(),
            sk,
            sh,
            iv,
        ) && packet_parts(auth_packet(plain_text@, password@, sk, sh, iv), plain_text@, password@, sk, sh, iv),
{
    let salt_key = random_bytes(8);
    let salt_hmac = random_bytes(8);
    let iv = random_bytes(16);
    let r = bitcomet_encrypt_with(plain_text, password, salt_key.as_slice(), salt_hmac.as_slice(), iv.as_slice());
    r
}

// ---------------------------------------------------------------------------
// Sign-in
// ---------------------------------------------------------------------------

pub open spec fn needs_account() -> Seq<char> {
    "BitComet WebUI 需要用户名和密码。请在 BitComet 的“远程访问 / WebUI”里启用 Web 远程访问并填写账号密码。"@
}

impl BitCometClient {
    /// Signing in needs a user name.
    pub fn check_account(&self) -> (r: Result<(), String>)
        ensures
            trim(self.username@).len() == 0 ==> (r matches Err(e) && e@ == needs_account()),
            trim(self.username@).len() > 0 ==> r is Ok,
    {
        let t = trim_str(self.username.as_str());
        if t.as_str().is_empty() {
            Err(owned(
                "BitComet WebUI 需要用户名和密码。请在 BitComet 的“远程访问 / WebUI”里启用 Web 远程访问并填写账号密码。",
            ))
        } else {
            Ok(())
        }
    }

    /// The credentials that are encrypted into the login packet.
    pub fn login_credentials(&self) -> (v: JsonValue)
        ensures
            has_keys(v, seq!["username"@, "password"@]),
            is_str(member_at(v, 0), self.username@),
            is_str(member_at(v, 1), self.password@),
    {
        let mut es: Vec<(String, JsonValue)> = Vec::new();
        es.push((owned("username"), JsonValue::Str(self.username.clone())));
        es.push((owned("password"), JsonValue::Str(self.password.clone())));
        JsonValue::Object(es)
    }

    /// The login request: the client id and the encrypted credentials.
    pub fn login_request(&self, authentication: String) -> (v: JsonValue)
        ensures
            has_keys(v, seq!["client_id"@, "authentication"@]),
            is_str(member_at(v, 0), self.client_id@),
            is_str(member_at(v, 1), authentication@),
    {
        let mut es: Vec<(String, JsonValue)> = Vec::new();
        es.push((owned("client_id"), JsonValue::Str(self.client_id.clone())));
        es.push((owned("authentication"), JsonValue::Str(authentication)));
        JsonValue::Object(es)
    }

    /// The invitation token in the login answer, or the error the answer reports.
    pub fn invite_token(value: &JsonValue) -> (r: Result<String, String>)
        ensures
            bitcomet_error(*value) matches Some(e) ==> (r matches Err(x) && x@ == e),
            bitcomet_error(*value) is None ==> match as_str(index(*value, "invite_token"@)) {
                Some(t) => (r matches Ok(x) && x@ == t),
                None => (r matches Err(x) && x@ == "BitComet 登录成功响应中没有 invite_token。"@),
            },
    {
        if let Some(error) = bitcomet_error_message(value) {
            return Err(error);
        }
        match get_member(value, "invite_token") {
            Some(m) => match get_str(m) {
                Some(s) => Ok(s.clone()),
                None => Err(owned("BitComet 登录成功响应中没有 invite_token。")),
            },
            None => Err(owned("BitComet 登录成功响应中没有 invite_token。")),
        }
    }

    /// The request for a device token, sent with the invitation token.
    pub fn device_token_request(&self, invite_token: &str) -> (v: JsonValue)
        ensures
            has_keys(v, seq!["invite_token"@, "device_id"@, "device_name"@, "platform"@]),
            is_str(member_at(v, 0), invite_token@),
            is_str(member_at(v, 1), self.client_id@),
            is_str(member_at(v, 2), "Download Client Game Speed Limiter"@),
            is_str(member_at(v, 3), "webui"@),
    {
        let mut es: Vec<(String, JsonValue)> = Vec::new();
        es.push((owned("invite_token"), JsonValue::Str(owned(invite_token))));
        es.push((owned("device_id"), JsonValue::Str(self.client_id.clone())));
        es.push((owned("device_name"), JsonValue::Str(owned("Download Client Game Speed Limiter"))));
        es.push((owned("platform"), JsonValue::Str(owned("webui"))));
        JsonValue::Object(es)
    }

    /// Takes the device token of the answer: a non-empty `device_token` becomes the
    /// session's token.
    pub fn accept_device_token(&mut self, value: &JsonValue) -> (r: Result<(), String>)
        ensures
            match as_str(index(*value, "device_token"@)) {
                Some(t) => if t.len() > 0 {
                    r is Ok && (final(self).token matches Some(x) && x@ == t)
                } else {
                    (r matches Err(x) && x@ == "BitComet 返回了空 device_token，请检查 WebUI 账号密码。"@)
                        && final(self).token == old(self).token
                },
                None => (r matches Err(x) && x@ == "BitComet 没有返回 device_token，请检查 WebUI 账号密码。"@)
                    && final(self).token == old(self).token,
            },
            final(self).base_url == old(self).base_url,
            final(self).username == old(self).username,
            final(self).password == old(self).password,
            final(self).client_id == old(self).client_id,
    {
        let token = match get_member(value, "device_token") {
            Some(m) => match get_str(m) {
                Some(s) => s.clone(),
                None => return Err(owned("BitComet 没有返回 device_token，请检查 WebUI 账号密码。")),
            },
            None => return Err(owned("BitComet 没有返回 device_token，请检查 WebUI 账号密码。")),
        };
        if token.as_str().is_empty() {
            Err(owned("BitComet 返回了空 device_token，请检查 WebUI 账号密码。"))
        } else {
            self.token = Some(token);
            Ok(())
        }
    }
}

} // verus!
