//! What the client keeps between runs: the configuration file, the token
//! names in the system keychain, and the place of the encrypted cookie file.
use vstd::prelude::*;
use vstd::string::StringSliceAdditionalSpecFns;
use vstd::utf8::{decode_utf8, encode_utf8, valid_utf8};
use crate::codec::{
    base64_decode, base64_decoding, base64_encode, base64_encoding, base64_len,
    lemma_base64_encoding, utf8_to_string,
};
use crate::crypto::{
    aes256gcm_decrypt, aes256gcm_encrypt, aes256gcm_open, aes256gcm_seal, random_bytes, KEY_LEN,
    MAX_PLAINTEXT, NONCE_LEN, TAG_LEN,
};
use crate::text::opt_view;

verus! {

/// The keychain service under which every secret is stored.
pub const KEYCHAIN_SERVICE: &'static str = "com.valorantstore.app";

/// Keychain entry of the access token.
pub const ACCESS_TOKEN_KEY: &'static str = "access_token";

/// Keychain entry of the entitlements token.
pub const ENTITLEMENTS_TOKEN_KEY: &'static str = "entitlements_token";

/// Keychain entry of the cookie jar when it is small enough to live there.
pub const COOKIE_STORE_KEY: &'static str = "cookie_store";

/// Keychain entry of the key that encrypts the cookie file.
pub const COOKIE_KEY_KEY: &'static str = "cookie_aes_key";

/// The persisted configuration: who is signed in and until when the
/// access token is good (seconds since the Unix epoch).
#[derive(Clone, Debug, PartialEq, Eq)]
pub struct ConfigData {
    pub puuid: Option<String>,
    pub token_expiry: Option<u64>,
}

impl ConfigData {
    /// The configuration of nobody signed in.
    pub open spec fn is_empty(self) -> bool {
        self.puuid is None && self.token_expiry is None
    }
}

impl Default for ConfigData {
    fn default() -> (r: ConfigData)
        ensures
            r.is_empty(),
    {
        ConfigData { puuid: None, token_expiry: None }
    }
}


/// Name of the configuration file in the data directory.
pub const CONFIG_FILE: &'static str = "config.json";

/// Name of the encrypted cookie file in the data directory.
pub const COOKIE_FILE: &'static str = "cookies.enc";

/// Longest Base64 cookie text kept in the keychain (the Windows credential
/// manager stops near 2560 bytes).
pub const KEYCHAIN_COOKIE_LIMIT: usize = 2000;

/// A path separator on some platform.
pub open spec fn is_separator(c: char) -> bool {
    c == '/' || c == '\\'
}

/// A character after which no separator is added: a separator or a drive mark.
pub open spec fn is_path_mark(c: char) -> bool {
    is_separator(c) || c == ':'
}

/// `r` is `file` appended to `dir` after one separator.
pub open spec fn separator_joined(dir: Seq<char>, file: Seq<char>, r: Seq<char>) -> bool {
    exists|c: char| is_separator(c) && r == dir + seq![c] + file
}

/// `name` is a plain file name: not empty, without separators or drive marks.
pub open spec fn plain_file_name(name: Seq<char>) -> bool {
    &&& name.len() > 0
    &&& forall|i: int| 0 <= i < name.len() ==> !is_path_mark(#[trigger] name[i])
    &&& name != seq!['.']
    &&& name != seq!['.', '.']
}

/// A Windows verbatim path (`\\?\...`), which `PathBuf::push` rebuilds and
/// normalises rather than extends.
pub open spec fn verbatim_path(dir: Seq<char>) -> bool {
    dir.len() >= 4 && dir[0] == '\\' && dir[1] == '\\' && dir[2] == '?' && dir[3] == '\\'
}

/// Calls `std::path::Path::join` on `dir` and the plain file name `file`
/// and returns the path as text (both inputs are UTF-8, so nothing is lost).
/// Trusted, per the documentation of `PathBuf::push` for a relative path:
/// the file name is appended, after a separator when one is needed; which
/// separator is the platform's and is not fixed further. For a Windows
/// verbatim directory, which `push` normalises as a whole, nothing is
/// stated.
#[verifier::external_body]
fn join_path(dir: &str, file: &str) -> (r: String)
    requires
        plain_file_name(file@),
    ensures
        !verbatim_path(dir@) ==> joined(dir@, file@, r@),
{
    std::path::Path::new(dir).join(file).to_string_lossy().into_owned()
}

/// Where the client keeps its files.
#[derive(Clone, Debug, PartialEq, Eq)]
pub struct StoreManager {
    pub app_data_dir: String,
}

/// The path of `file` inside `dir`, as `join_path` may give it.
pub open spec fn joined(dir: Seq<char>, file: Seq<char>, r: Seq<char>) -> bool {
    &&& r == dir + file || separator_joined(dir, file, r)
    &&& dir.len() == 0 ==> r == file
    &&& dir.len() > 0 && dir.last() == '/' ==> r == dir + file
    &&& dir.len() > 0 && !is_path_mark(dir.last()) ==> separator_joined(dir, file, r)
}

impl StoreManager {
    /// A store rooted at `app_data_dir` (the directory itself is made by the
    /// application).
    pub fn new(app_data_dir: String) -> (r: StoreManager)
        ensures
            r.app_data_dir == app_data_dir,
    {
        StoreManager { app_data_dir }
    }

    /// The configuration file.
    pub fn config_path(&self) -> (r: String)
        ensures
            !verbatim_path(self.app_data_dir@) ==> joined(self.app_data_dir@, CONFIG_FILE@, r@),
    {
        proof {
            reveal_strlit("config.json");
        }
        join_path(self.app_data_dir.as_str(), CONFIG_FILE)
    }

    /// The encrypted cookie file.
    pub fn cookie_enc_path(&self) -> (r: String)
        ensures
            !verbatim_path(self.app_data_dir@) ==> joined(self.app_data_dir@, COOKIE_FILE@, r@),
    {
        proof {
            reveal_strlit("cookies.enc");
        }
        join_path(self.app_data_dir.as_str(), COOKIE_FILE)
    }
}


/// The Base64 text under which `cookie_json` goes into the keychain.
pub open spec fn keychain_cookie_text(cookie_json: Seq<char>) -> Seq<char> {
    base64_encoding(encode_utf8(cookie_json))
}

/// The characters that UTF-8 `bytes` encode, when they are valid.
pub open spec fn utf8_text(bytes: Seq<u8>) -> Option<Seq<char>> {
    if valid_utf8(bytes) {
        Some(decode_utf8(bytes))
    } else {
        None
    }
}

/// The cookie jar that a keychain text holds, if it holds one.
pub open spec fn keychain_cookies(text: Seq<char>) -> Option<Seq<char>> {
    match base64_decoding(text) {
        Some(b) => utf8_text(b),
        None => None,
    }
}

/// Where a cookie jar is kept.
#[derive(Clone, Debug, PartialEq, Eq)]
pub enum CookiePlacement {
    /// In the keychain, as this Base64 text.
    Keychain(String),
    /// Encrypted in the cookie file.
    EncryptedFile,
}

/// Decides where the cookie jar `cookie_json` is kept: in the keychain as
/// its Base64 text while that text has at most `KEYCHAIN_COOKIE_LIMIT`
/// bytes, else in the encrypted file. Reading the keychain text back gives
/// the jar.
pub fn place_cookies(cookie_json: &str) -> (r: CookiePlacement)
    requires
        base64_len(encode_utf8(cookie_json@).len()) <= usize::MAX,
    ensures
        keychain_cookie_text(cookie_json@).len() == base64_len(encode_utf8(cookie_json@).len()),
        keychain_cookie_text(cookie_json@).len() > KEYCHAIN_COOKIE_LIMIT ==> r
            == CookiePlacement::EncryptedFile,
        keychain_cookie_text(cookie_json@).len() <= KEYCHAIN_COOKIE_LIMIT ==> (r matches CookiePlacement::Keychain(t)
            && t@ == keychain_cookie_text(cookie_json@)),
        r matches CookiePlacement::Keychain(t) ==> keychain_cookies(t@) == Some(cookie_json@),
{
    broadcast use vstd::string::is_ascii_spec_bytes;
    let b64 = base64_encode(cookie_json.as_bytes());
    proof {
        lemma_base64_encoding(encode_utf8(cookie_json@));
        vstd::utf8::encode_utf8_valid_utf8(cookie_json@);
        vstd::utf8::encode_utf8_decode_utf8(cookie_json@);
    }
    let text = b64.as_str();
    assert(vstd::string::is_ascii(text));
    assert(text.spec_bytes().len() == text@.len());
    let n = text.len();
    if n > KEYCHAIN_COOKIE_LIMIT {
        CookiePlacement::EncryptedFile
    } else {
        CookiePlacement::Keychain(b64)
    }
}

/// The cookie jar held by a keychain text: its Base64 bytes read as UTF-8.
pub fn cookies_from_keychain(text: &str) -> (r: Option<String>)
    ensures
        opt_view(r) == keychain_cookies(text@),
{
    match base64_decode(text) {
        Ok(bytes) => utf8_to_string(bytes),
        Err(_) => None,
    }
}

/// A fresh key for the cookie file, as the Base64 text kept in the keychain.
pub fn new_cookie_key() -> (r: String)
    ensures
        exists|k: Seq<u8>| k.len() == KEY_LEN && r@ == base64_encoding(k) && base64_decoding(r@) == Some(k),
{
    let key = random_bytes(KEY_LEN);
    let text = base64_encode(key.as_slice());
    proof {
        lemma_base64_encoding(key@);
    }
    text
}

/// The key bytes that a keychain text stands for.
pub fn decode_cookie_key(text: &str) -> (r: Result<Vec<u8>, String>)
    ensures
        match base64_decoding(text@) {
            Some(k) => r matches Ok(v) && v@ == k,
            None => r is Err,
        },
{
    base64_decode(text)
}

/// The bytes of the cookie file: the nonce, then the ciphertext of the jar.
pub open spec fn sealed_cookies(key: Seq<u8>, nonce: Seq<u8>, cookie_json: Seq<char>) -> Seq<u8> {
    nonce + aes256gcm_seal(key, nonce, encode_utf8(cookie_json))
}

/// The cookie jar that the cookie file `blob` holds under `key`: more than a
/// nonce's worth of bytes, whose rest opens to UTF-8 text.
pub open spec fn opened_cookies(key: Seq<u8>, blob: Seq<u8>) -> Option<Seq<char>> {
    if blob.len() > NONCE_LEN {
        match aes256gcm_open(key, blob.take(NONCE_LEN as int), blob.skip(NONCE_LEN as int)) {
            Some(p) => utf8_text(p),
            None => None,
        }
    } else {
        None
    }
}

fn copy_range(bytes: &[u8], lo: usize, hi: usize) -> (r: Vec<u8>)
    requires
        lo <= hi <= bytes@.len(),
    ensures
        r@ == bytes@.subrange(lo as int, hi as int),
{
    let mut r: Vec<u8> = Vec::new();
    let mut i = lo;
    while i < hi
        invariant
            lo <= i <= hi <= bytes@.len(),
            r@ == bytes@.subrange(lo as int, i as int),
        decreases hi - i,
    {
        r.push(bytes[i]);
        assert(bytes@.subrange(lo as int, i + 1) =~= bytes@.subrange(lo as int, i as int).push(bytes@[i as int]));
        i = i + 1;
    }
    r
}

/// Seals the cookie jar under `key` with `nonce`: the file bytes are the
/// nonce followed by the ciphertext, and opening them gives the jar back.
/// It fails only for a jar beyond the cipher's limit.
pub fn seal_cookies_with_nonce(key: &[u8], nonce: &[u8], cookie_json: &str) -> (r: Result<Vec<u8>, String>)
    requires
        key@.len() == KEY_LEN,
        nonce@.len() == NONCE_LEN,
    ensures
        r is Ok <==> encode_utf8(cookie_json@).len() <= MAX_PLAINTEXT,
        r matches Ok(b) ==> b@ == sealed_cookies(key@, nonce@, cookie_json@),
        r matches Ok(b) ==> b@.len() == NONCE_LEN + encode_utf8(cookie_json@).len() + TAG_LEN,
        r matches Ok(b) ==> opened_cookies(key@, b@) == Some(cookie_json@),
{
    let plain = cookie_json.as_bytes();
    let cipher = match aes256gcm_encrypt(key, nonce, plain) {
        Ok(c) => c,
        Err(e) => {
            return Err(e);
        },
    };
    let mut blob = copy_range(nonce, 0, nonce.len());
    let mut i: usize = 0;
    while i < cipher.len()
        invariant
            i <= cipher@.len(),
            blob@ == nonce@ + cipher@.take(i as int),
        decreases cipher@.len() - i,
    {
        blob.push(cipher[i]);
        assert(cipher@.take(i + 1) =~= cipher@.take(i as int).push(cipher@[i as int]));
        assert(nonce@ + cipher@.take(i + 1) =~= (nonce@ + cipher@.take(i as int)).push(cipher@[i as int]));
        i = i + 1;
    }
    proof {
        assert(cipher@.take(cipher@.len() as int) =~= cipher@);
        assert(blob@.take(NONCE_LEN as int) =~= nonce@);
        assert(blob@.skip(NONCE_LEN as int) =~= cipher@);
        vstd::utf8::encode_utf8_valid_utf8(cookie_json@);
        vstd::utf8::encode_utf8_decode_utf8(cookie_json@);
    }
    Ok(blob)
}

/// Seals the cookie jar under `key` with a fresh random nonce; opening the
/// bytes gives the jar back. It fails only for a jar beyond the cipher's
/// limit.
pub fn seal_cookies(key: &[u8], cookie_json: &str) -> (r: Result<Vec<u8>, String>)
    requires
        key@.len() == KEY_LEN,
    ensures
        r is Ok <==> encode_utf8(cookie_json@).len() <= MAX_PLAINTEXT,
        r matches Ok(b) ==> exists|nonce: Seq<u8>| nonce.len() == NONCE_LEN && b@ == sealed_cookies(key@, nonce, cookie_json@),
        r matches Ok(b) ==> b@.len() == NONCE_LEN + encode_utf8(cookie_json@).len() + TAG_LEN,
        r matches Ok(b) ==> opened_cookies(key@, b@) == Some(cookie_json@),
{
    let nonce = random_bytes(NONCE_LEN);
    seal_cookies_with_nonce(key, nonce.as_slice(), cookie_json)
}

/// The cookie jar in the cookie file `blob` under `key`. A key of another
/// length than `KEY_LEN` is only allowed for a file too short to hold one.
pub fn open_cookies(key: &[u8], blob: &[u8]) -> (r: Option<String>)
    requires
        blob@.len() > NONCE_LEN ==> key@.len() == KEY_LEN,
    ensures
        opt_view(r) == opened_cookies(key@, blob@),
{
    if blob.len() <= NONCE_LEN {
        return None;
    }
    let nonce = copy_range(blob, 0, NONCE_LEN);
    let cipher = copy_range(blob, NONCE_LEN, blob.len());
    assert(blob@.take(NONCE_LEN as int) =~= nonce@);
    assert(blob@.skip(NONCE_LEN as int) =~= cipher@);
    match aes256gcm_decrypt(key, nonce.as_slice(), cipher.as_slice()) {
        Some(plain) => utf8_to_string(plain),
        None => None,
    }
}

} // verus!
