//! Remote-monitoring state and decisions: the vision-model query request,
//! the chat-post request, the posting-interval gate, and the expiry rule for
//! uploaded images. The HTTP calls themselves happen outside the library;
//! this module owns the shared state they poll and the request bodies they
//! send.

use vstd::prelude::*;

verus! {

/// Seconds an uploaded image stays before it is deleted: one day.
pub const EXPIRATION: u64 = 60 * 60 * 24;

/// State of the vision-model query the monitoring thread serves.
pub struct QueryOpenAI {
    pub api_key: String,
    pub model: String,
    pub max_tokens: u32,
    pub query_start: bool,
    pub detail: String,
    pub reply: String,
    pub track_id: u32,
    pub count: u32,
    pub prompt: String,
    pub timeout: u32,
}

/// State of the post-image-and-message request the monitoring thread serves.
pub struct PostImageAndMessage {
    pub post_message_request: bool,
    pub post_url: String,
    pub post_to: String,
    pub post_message_trigger: String,
    pub access_token: String,
    pub storage_url: String,
    pub storage_account: String,
    pub storage_access_token: String,
    pub storage_signed_key: String,
    pub image_url: String,
    pub post_message_string: String,
    pub track_id: u32,
    pub count: u32,
    pub posted_status: bool,
    pub last_posted_date_time: u64,
    pub post_interval: u32,
}

/// The monitoring front end the control loop talks to.
pub struct Monitoring {
    pub openai: QueryOpenAI,
    pub postmsg: PostImageAndMessage,
}

impl Monitoring {
    /// Fresh monitoring state for a model and its key; timestamps start at
    /// `now` epoch seconds.
    pub fn new(model: String, api_key: String, now: u64) -> (m: Monitoring)
        ensures
            m.openai.api_key@ == api_key@,
            m.openai.model@ == model@,
            m.openai.max_tokens == 100,
            !m.openai.query_start,
            m.openai.detail@ == "low"@,
            m.openai.reply@ == Seq::<char>::empty(),
            m.openai.track_id == 0,
            m.openai.count == 0,
            m.openai.prompt@ == Seq::<char>::empty(),
            m.openai.timeout == 20,
            !m.postmsg.post_message_request,
            m.postmsg.post_url@ == "https://api.line.me/v2/bot/message/push"@,
            m.postmsg.post_to@ == Seq::<char>::empty(),
            m.postmsg.post_message_trigger@ == Seq::<char>::empty(),
            m.postmsg.access_token@ == Seq::<char>::empty(),
            m.postmsg.storage_url@ == "https://api.cloudflare.com/client/v4/accounts"@,
            m.postmsg.storage_account@ == Seq::<char>::empty(),
            m.postmsg.storage_access_token@ == Seq::<char>::empty(),
            m.postmsg.storage_signed_key@ == Seq::<char>::empty(),
            m.postmsg.image_url@ == Seq::<char>::empty(),
            m.postmsg.post_message_string@ == Seq::<char>::empty(),
            m.postmsg.track_id == 0,
            m.postmsg.count == 0,
            !m.postmsg.posted_status,
            m.postmsg.last_posted_date_time == now,
            m.postmsg.post_interval == 0,
    {
        Monitoring {
            openai: QueryOpenAI {
                api_key,
                model,
                max_tokens: 100,
                reply: String::new(),
                query_start: false,
                detail: String::from_str("low"),
                track_id: 0,
                count: 0,
                prompt: String::new(),
                timeout: 20,
            },
            postmsg: PostImageAndMessage {
                post_message_request: false,
                post_url: String::from_str("https://api.line.me/v2/bot/message/push"),
                post_to: String::new(),
                post_message_trigger: String::new(),
                access_token: String::new(),
                storage_url: String::from_str("https://api.cloudflare.com/client/v4/accounts"),
                storage_account: String::new(),
                storage_access_token: String::new(),
                storage_signed_key: String::new(),
                image_url: String::new(),
                post_message_string: String::new(),
                track_id: 0,
                count: 0,
                posted_status: false,
                last_posted_date_time: now,
                post_interval: 0,
            },
        }
    }

    /// Ask the monitoring thread to run one vision-model query over the
    /// given track and frame.
    pub fn set_query_start(&mut self, prompt: String, track_id: u32, count: u32)
        ensures
            *final(self) == (Monitoring { openai: final(self).openai, ..*old(self) }),
            final(self).openai == (QueryOpenAI {
                track_id,
                count,
                prompt: final(self).openai.prompt,
                query_start: true,
                ..old(self).openai
            }),
            final(self).openai.prompt@ == prompt@,
    {
        self.openai.track_id = track_id;
        self.openai.count = count;
        self.openai.prompt = prompt;
        self.openai.query_start = true;
    }

    /// The reply of the last finished query.
    pub fn get_query_reply(&self) -> (r: String)
        ensures
            r@ == self.openai.reply@,
    {
        self.openai.reply.clone()
    }

    /// True while a query is still pending.
    pub fn get_query_status(&self) -> (r: bool)
        ensures
            r == self.openai.query_start,
    {
        self.openai.query_start
    }

    pub fn set_post_access_token(&mut self, to: String, access_token: String,
        post_message_trigger: String)
        ensures
            *final(self) == (Monitoring { postmsg: final(self).postmsg, ..*old(self) }),
            final(self).postmsg == (PostImageAndMessage {
                post_to: final(self).postmsg.post_to,
                access_token: final(self).postmsg.access_token,
                post_message_trigger: final(self).postmsg.post_message_trigger,
                ..old(self).postmsg
            }),
            final(self).postmsg.post_to@ == to@,
            final(self).postmsg.access_token@ == access_token@,
            final(self).postmsg.post_message_trigger@ == post_message_trigger@,
    {
        self.postmsg.post_to = to;
        self.postmsg.access_token = access_token;
        self.postmsg.post_message_trigger = post_message_trigger;
    }

    pub fn set_storage_access_token(&mut self, account: String, access_token: String,
        signed_key: String)
        ensures
            *final(self) == (Monitoring { postmsg: final(self).postmsg, ..*old(self) }),
            final(self).postmsg == (PostImageAndMessage {
                storage_account: final(self).postmsg.storage_account,
                storage_access_token: final(self).postmsg.storage_access_token,
                storage_signed_key: final(self).postmsg.storage_signed_key,
                ..old(self).postmsg
            }),
            final(self).postmsg.storage_account@ == account@,
            final(self).postmsg.storage_access_token@ == access_token@,
            final(self).postmsg.storage_signed_key@ == signed_key@,
    {
        self.postmsg.storage_account = account;
        self.postmsg.storage_access_token = access_token;
        self.postmsg.storage_signed_key = signed_key;
    }

    /// Ask the monitoring thread to post a message with the given track and
    /// frame's image.
    pub fn post_message_request(&mut self, message: String, track_id: u32, count: u32)
        ensures
            *final(self) == (Monitoring { postmsg: final(self).postmsg, ..*old(self) }),
            final(self).postmsg == (PostImageAndMessage {
                post_message_request: true,
                post_message_string: final(self).postmsg.post_message_string,
                track_id,
                count,
                ..old(self).postmsg
            }),
            final(self).postmsg.post_message_string@ == message@,
    {
        self.postmsg.post_message_request = true;
        self.postmsg.post_message_string = message;
        self.postmsg.track_id = track_id;
        self.postmsg.count = count;
    }

    /// True while a post request is still pending.
    pub fn get_post_message_status(&self) -> (r: bool)
        ensures
            r == self.postmsg.post_message_request,
    {
        self.postmsg.post_message_request
    }

    /// True once any message has been posted successfully.
    pub fn get_posted_status(&self) -> (r: bool)
        ensures
            r == self.postmsg.posted_status,
    {
        self.postmsg.posted_status
    }

    /// Record when a message was last posted and the minimum interval
    /// between posts, in seconds.
    pub fn set_last_posted_date_time(&mut self, datetime: u64, post_interval: u32)
        ensures
            *final(self) == (Monitoring { postmsg: final(self).postmsg, ..*old(self) }),
            final(self).postmsg == (PostImageAndMessage {
                last_posted_date_time: datetime,
                post_interval,
                ..old(self).postmsg
            }),
    {
        self.postmsg.last_posted_date_time = datetime;
        self.postmsg.post_interval = post_interval;
    }
}

/// Whether enough time has passed since the last post for a new query to
/// run: a positive interval gates queries until it has elapsed.
pub fn post_interval_reached(last_posted: u64, now: u64, post_interval: u32) -> (r: bool)
    requires
        now >= last_posted,
    ensures
        r == !(post_interval > 0 && now - last_posted < post_interval),
{
    !(post_interval > 0 && now - last_posted < post_interval as u64)
}

/// Whether an uploaded image is old enough to be deleted from storage.
pub fn image_expired(upload_epoch: u64, now: u64) -> (r: bool)
    requires
        now >= upload_epoch,
    ensures
        r == (now - upload_epoch >= EXPIRATION),
{
    now - upload_epoch >= EXPIRATION
}


/// The HMAC-SHA-256 tag of a message under a key: 32 bytes, a function of
/// key and message alone.
pub uninterp spec fn hmac_sha256_of(key: Seq<u8>, msg: Seq<u8>) -> Seq<u8>;

/// Relies on hmac's `Hmac<Sha256>` (`new_from_slice`, `update`, `finalize`):
/// the HMAC-SHA-256 tag of the message under the key. Any key length is
/// accepted; the output is always 32 bytes.
#[verifier::external_body]
fn hmac_sha256(key: &[u8], msg: &[u8]) -> (r: Vec<u8>)
    ensures
        r@ == hmac_sha256_of(key@, msg@),
        r@.len() == 32,
{
    let mut mac = <hmac::Hmac<sha2::Sha256> as hmac::KeyInit>::new_from_slice(key)
        .expect("HMAC accepts keys of any length");
    hmac::Mac::update(&mut mac, msg);
    hmac::Mac::finalize(mac).into_bytes().to_vec()
}

/// The lowercase hex digit of a value below sixteen.
pub open spec fn spec_hex_digit(d: int) -> char {
    if d < 10 {
        crate::text::spec_digit_char(d)
    } else if d == 10 {
        'a'
    } else if d == 11 {
        'b'
    } else if d == 12 {
        'c'
    } else if d == 13 {
        'd'
    } else if d == 14 {
        'e'
    } else {
        'f'
    }
}

/// A byte as two lowercase hex digits, high digit first.
pub open spec fn spec_hex_byte(x: u8) -> Seq<char> {
    seq![spec_hex_digit((x / 16) as int), spec_hex_digit((x % 16) as int)]
}

/// Bytes as lowercase hex text, two digits per byte.
pub open spec fn spec_hex_of(b: Seq<u8>) -> Seq<char>
    decreases b.len(),
{
    if b.len() == 0 {
        Seq::empty()
    } else {
        spec_hex_byte(b[0]) + spec_hex_of(b.skip(1))
    }
}

/// Relies on hex::encode: lowercase hex, two digits per byte, in byte order.
#[verifier::external_body]
fn hex_encode(b: &[u8]) -> (r: String)
    ensures
        r@ == spec_hex_of(b@),
{
    hex::encode(b)
}

/// The standard-alphabet, padded base64 text of a byte sequence, a function
/// of the bytes alone.
pub uninterp spec fn base64_of(b: Seq<u8>) -> Seq<char>;

/// Relies on base64's `STANDARD` engine `encode`: standard alphabet with
/// padding, four characters for every started group of three bytes.
#[verifier::external_body]
fn base64_encode(b: &[u8]) -> (r: String)
    ensures
        r@ == base64_of(b@),
        r@.len() == 4 * ((b@.len() + 2) / 3),
        b@.len() == 0 ==> r@.len() == 0,
{
    base64::Engine::encode(&base64::engine::general_purpose::STANDARD, b)
}

/// A query string with one more `key=value` pair appended.
pub open spec fn spec_query_with(q: Seq<char>, k: Seq<char>, v: Seq<char>) -> Seq<char> {
    if q.len() == 0 {
        k + "="@ + v
    } else {
        q + "&"@ + k + "="@ + v
    }
}

/// The query string of a signed URL: the original query with the expiry
/// appended as `exp`, then a `sig` pair holding the lowercase hex
/// HMAC-SHA-256 of `path?query-with-exp` under the signing key. The caller
/// splices the query back into its URL; both appended values are digits and
/// lowercase hex, so no percent-encoding is needed.
pub fn generate_signed_query(path: &str, query: &str, key: &str, expiry: u64) -> (r: String)
    ensures
        ({
            let q1 = spec_query_with(query@, "exp"@, crate::text::spec_dec_digits(
                expiry as nat));
            let sts = path@ + "?"@ + q1;
            r@ == spec_query_with(q1, "sig"@, spec_hex_of(hmac_sha256_of(
                vstd::utf8::encode_utf8(key@), vstd::utf8::encode_utf8(sts))))
        }),
{
    let mut q1 = String::from_str(query);
    if query.unicode_len() == 0 {
        q1.append("exp=");
        proof {
            reveal_strlit("exp=");
            reveal_strlit("exp");
            reveal_strlit("=");
            assert("exp="@ =~= "exp"@ + "="@);
        }
    } else {
        q1.append("&exp=");
        proof {
            reveal_strlit("&exp=");
            reveal_strlit("&");
            reveal_strlit("exp");
            reveal_strlit("=");
            assert("&exp="@ =~= "&"@ + "exp"@ + "="@);
        }
    }
    let expiry_text = crate::text::u64_to_dec(expiry);
    q1.append(expiry_text.as_str());
    proof {
        assert(q1@ =~= spec_query_with(query@, "exp"@, crate::text::spec_dec_digits(
            expiry as nat)));
    }
    let mut sts = String::from_str(path);
    sts.append("?");
    sts.append(q1.as_str());
    proof {
        assert(sts@ =~= path@ + "?"@ + q1@);
    }
    let tag = hmac_sha256(key.as_bytes(), sts.as_str().as_bytes());
    let sig = hex_encode(tag.as_slice());
    let mut r = q1;
    r.append("&sig=");
    r.append(sig.as_str());
    proof {
        reveal_strlit("&sig=");
        reveal_strlit("&");
        reveal_strlit("sig");
        reveal_strlit("=");
        reveal_strlit("exp");
        assert("&sig="@ =~= "&"@ + "sig"@ + "="@);
        assert(q1@.len() > 0);
        assert(r@ =~= ((((q1@ + "&"@) + "sig"@) + "="@) + sig@));
        assert(spec_query_with(q1@, "sig"@, sig@) == ((((q1@ + "&"@) + "sig"@) + "="@)
            + sig@));
    }
    r
}


/// The message text as it is posted: carriage returns removed and newlines
/// replaced by spaces, scanned from the front.
pub open spec fn spec_clean_reply(s: Seq<char>) -> Seq<char>
    decreases s.len(),
{
    if s.len() == 0 {
        Seq::empty()
    } else {
        let front = spec_clean_reply(s.drop_last());
        if s.last() == '\r' {
            front
        } else if s.last() == '\n' {
            front.push(' ')
        } else {
            front.push(s.last())
        }
    }
}

/// Remove carriage returns and turn newlines into spaces.
pub fn clean_reply(reply: &str) -> (r: String)
    ensures
        r@ == spec_clean_reply(reply@),
{
    let n = reply.unicode_len();
    let mut r = String::new();
    let mut i: usize = 0;
    while i < n
        invariant
            i <= n,
            n == reply@.len(),
            r@ == spec_clean_reply(reply@.take(i as int)),
        decreases n - i,
    {
        let c = reply.get_char(i);
        if c == '\r' {
        } else if c == '\n' {
            crate::text::push_char(&mut r, ' ');
        } else {
            crate::text::push_char(&mut r, c);
        }
        i = i + 1;
        proof {
            assert(reply@.take(i as int).drop_last() =~= reply@.take(i - 1));
            assert(reply@.take(i as int).last() == reply@[i - 1]);
        }
    }
    proof {
        assert(reply@.take(n as int) =~= reply@);
    }
    r
}

/// The JSON body of one vision-model query: the model, the prompt, the
/// base64 of the image, the detail level, and the token cap inlined into
/// the fixed chat-completion template.
pub open spec fn spec_openai_body(model: Seq<char>, prompt: Seq<char>, detail: Seq<char>,
    max_tokens: nat, image: Seq<u8>) -> Seq<char> {
    "{\"model\": \""@ + model + "\", \"messages\": [\n{\"role\": \"user\", \"content\": [\n    {\"type\": \"text\", \"text\": \""@ + prompt + "\"},\n    {\"type\": \"image_url\", \"image_url\": {\"url\": \"data:image/jpeg;base64,"@ + base64_of(image) + "\", \"detail\": \""@ + detail + "\" }}\n]}],\n\"max_tokens\": "@
        + crate::text::spec_dec_digits(max_tokens) + "}"@
}

/// Build the vision-model query body.
pub fn openai_request_body(model: &str, prompt: &str, detail: &str, max_tokens: u32,
    image: &[u8]) -> (r: String)
    ensures
        r@ == spec_openai_body(model@, prompt@, detail@, max_tokens as nat, image@),
{
    let b64 = base64_encode(image);
    let mut r = String::from_str("{\"model\": \"");
    r.append(model);
    r.append("\", \"messages\": [\n{\"role\": \"user\", \"content\": [\n    {\"type\": \"text\", \"text\": \"");
    r.append(prompt);
    r.append("\"},\n    {\"type\": \"image_url\", \"image_url\": {\"url\": \"data:image/jpeg;base64,");
    r.append(b64.as_str());
    r.append("\", \"detail\": \"");
    r.append(detail);
    r.append("\" }}\n]}],\n\"max_tokens\": ");
    let cap = crate::text::u32_to_dec(max_tokens);
    r.append(cap.as_str());
    r.append("}");
    proof {
        assert(r@ =~= spec_openai_body(model@, prompt@, detail@, max_tokens as nat, image@));
    }
    r
}

/// The JSON body of one chat post: the recipient, the cleaned reply text,
/// and the image URL (used for both the full and the preview image) inlined
/// into the fixed message template.
pub open spec fn spec_post_message_body(to: Seq<char>, reply: Seq<char>, image_url: Seq<char>)
    -> Seq<char> {
    "{\"to\": \""@ + to + "\", \"messages\": [\n{\"type\": \"text\", \"text\": \""@ + spec_clean_reply(reply) + "\"},\n{\"type\": \"image\", \"originalContentUrl\": \""@ + image_url + "\", \"previewImageUrl\": \""@
        + image_url + "\"}\n]}"@
}

/// Build the chat-post body.
pub fn post_message_body(to: &str, reply: &str, image_url: &str) -> (r: String)
    ensures
        r@ == spec_post_message_body(to@, reply@, image_url@),
{
    let cleaned = clean_reply(reply);
    let mut r = String::from_str("{\"to\": \"");
    r.append(to);
    r.append("\", \"messages\": [\n{\"type\": \"text\", \"text\": \"");
    r.append(cleaned.as_str());
    r.append("\"},\n{\"type\": \"image\", \"originalContentUrl\": \"");
    r.append(image_url);
    r.append("\", \"previewImageUrl\": \"");
    r.append(image_url);
    r.append("\"}\n]}");
    proof {
        assert(r@ =~= spec_post_message_body(to@, reply@, image_url@));
    }
    r
}

/// Append bytes to a buffer.
fn append_bytes(v: &mut Vec<u8>, s: &[u8])
    ensures
        final(v)@ == old(v)@ + s@,
{
    let mut i: usize = 0;
    while i < s.len()
        invariant
            i <= s@.len(),
            v@ == old(v)@ + s@.take(i as int),
        decreases s@.len() - i,
    {
        let byte = s[i];
        v.push(byte);
        i = i + 1;
        proof {
            assert(old(v)@ + s@.take(i as int) =~= (old(v)@ + s@.take(i - 1)).push(
                s@[i - 1]));
        }
    }
    proof {
        assert(s@.take(s@.len() as int) =~= s@);
    }
}

/// The multipart upload body for one image: the fixed boundary, a file part
/// named after the image, the raw JPEG bytes, and the signed-URL form flag.
pub open spec fn spec_multipart_image_body(filename: Seq<char>, buffer: Seq<u8>,
    signed_url: bool) -> Seq<u8> {
    vstd::utf8::encode_utf8("--------------------------a90531928d528eaf\r\n"@)
        + vstd::utf8::encode_utf8("Content-Disposition: form-data; name=\"file\"; filename=\""@) + vstd::utf8::encode_utf8(filename)
        + vstd::utf8::encode_utf8("\"\r\n"@)
        + vstd::utf8::encode_utf8("Content-Type: image/jpeg\r\n"@)
        + vstd::utf8::encode_utf8("\r\n"@)
        + buffer
        + vstd::utf8::encode_utf8("\r\n--------------------------a90531928d528eaf\r\n"@)
        + vstd::utf8::encode_utf8("Content-Disposition: form-data; name=\"requireSignedURLs\"\r\n\r\n"@)
        + vstd::utf8::encode_utf8(crate::text::spec_bool_str(signed_url))
        + vstd::utf8::encode_utf8("\r\n"@)
        + vstd::utf8::encode_utf8("--------------------------a90531928d528eaf--\r\n"@)
}

/// Build the multipart upload body for one image.
pub fn multipart_image_body(filename: &str, buffer: &[u8], signed_url: bool) -> (r: Vec<u8>)
    ensures
        r@ == spec_multipart_image_body(filename@, buffer@, signed_url),
{
    let mut r: Vec<u8> = Vec::new();
    append_bytes(&mut r, "--------------------------a90531928d528eaf\r\n".as_bytes());
    append_bytes(&mut r, "Content-Disposition: form-data; name=\"file\"; filename=\"".as_bytes());
    append_bytes(&mut r, filename.as_bytes());
    append_bytes(&mut r, "\"\r\n".as_bytes());
    append_bytes(&mut r, "Content-Type: image/jpeg\r\n".as_bytes());
    append_bytes(&mut r, "\r\n".as_bytes());
    append_bytes(&mut r, buffer);
    append_bytes(&mut r, "\r\n--------------------------a90531928d528eaf\r\n".as_bytes());
    append_bytes(&mut r, "Content-Disposition: form-data; name=\"requireSignedURLs\"\r\n\r\n".as_bytes());
    let flag = crate::text::bool_to_str(signed_url);
    append_bytes(&mut r, flag.as_str().as_bytes());
    append_bytes(&mut r, "\r\n".as_bytes());
    append_bytes(&mut r, "--------------------------a90531928d528eaf--\r\n".as_bytes());
    proof {
        assert(r@ =~= spec_multipart_image_body(filename@, buffer@, signed_url));
    }
    r
}

} // verus!
