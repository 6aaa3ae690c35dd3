//! User-set policy as a key/value text: the built-in defaults, the parsed
//! runtime configuration, and the exact line format the store holds — one
//! `KEY = "value"` line per entry. Key lookup is case-insensitive, as the
//! store lowercases keys.

use vstd::prelude::*;

verus! {

use crate::CoreError;
use crate::text::spec_lower;

/// The built-in configuration defaults, as the strings they are stored as.
pub struct Config {
    pub wifi_ssid: &'static str,
    pub wifi_psk: &'static str,
    pub timezone_offset: &'static str,
    pub idle_in_sleep_time: &'static str,
    pub auto_capture: &'static str,
    pub resolution: &'static str,
    pub track_id: &'static str,
    pub duration: &'static str,
    pub model: &'static str,
    pub api_key: &'static str,
    pub query_openai: &'static str,
    pub query_prompt: &'static str,
    pub post_account: &'static str,
    pub post_access_token: &'static str,
    pub storage_account: &'static str,
    pub storage_access_token: &'static str,
    pub post_message_trigger: &'static str,
    pub autofocus_once: &'static str,
    pub status_report: &'static str,
    pub status_report_interval: &'static str,
    pub post_interval: &'static str,
    pub leap_day: &'static str,
    pub leap_hour: &'static str,
    pub leap_minute: &'static str,
}

impl Config {
    pub fn new() -> (c: Config)
        ensures
            c.wifi_ssid@ == ""@,
            c.wifi_psk@ == ""@,
            c.timezone_offset@ == "0"@,
            c.idle_in_sleep_time@ == "300"@,
            c.auto_capture@ == "false"@,
            c.resolution@ == "0"@,
            c.track_id@ == "0"@,
            c.duration@ == "0"@,
            c.model@ == "gpt-4-turbo"@,
            c.api_key@ == "api-key"@,
            c.query_openai@ == "false"@,
            c.query_prompt@ == ""@,
            c.post_account@ == ""@,
            c.post_access_token@ == ""@,
            c.storage_account@ == ""@,
            c.storage_access_token@ == ""@,
            c.post_message_trigger@ == ""@,
            c.autofocus_once@ == "true"@,
            c.status_report@ == "false"@,
            c.status_report_interval@ == "600"@,
            c.post_interval@ == "3600"@,
            c.leap_day@ == "-1"@,
            c.leap_hour@ == "-1"@,
            c.leap_minute@ == "-1"@,
    {
        Config {
            wifi_ssid: "",
            wifi_psk: "",
            timezone_offset: "0",
            idle_in_sleep_time: "300",
            auto_capture: "false",
            resolution: "0",
            track_id: "0",
            duration: "0",
            model: "gpt-4-turbo",
            api_key: "api-key",
            query_openai: "false",
            query_prompt: "",
            post_account: "",
            post_access_token: "",
            storage_account: "",
            storage_access_token: "",
            post_message_trigger: "",
            autofocus_once: "true",
            status_report: "false",
            status_report_interval: "600",
            post_interval: "3600",
            leap_day: "-1",
            leap_hour: "-1",
            leap_minute: "-1",
        }
    }
}

/// The parsed runtime configuration.
#[derive(Debug)]
pub struct ConfigData {
    pub wifi_ssid: String,
    pub wifi_psk: String,
    pub timezone_offset: i32,
    pub idle_in_sleep_time: u32,
    pub auto_capture: bool,
    pub resolution: u32,
    pub track_id: u32,
    pub duration: u32,
    pub model: String,
    pub api_key: String,
    pub query_openai: bool,
    pub query_prompt: String,
    pub post_account: String,
    pub post_access_token: String,
    pub storage_account: String,
    pub storage_access_token: String,
    pub post_message_trigger: String,
    pub autofocus_once: bool,
    pub status_report: bool,
    pub status_report_interval: u32,
    pub post_interval: u32,
    pub leap_day: i32,
    pub leap_hour: i32,
    pub leap_minute: i32,
}

/// First index of `c` in `s`, or the length when absent.
pub open spec fn spec_find(s: Seq<char>, c: char) -> nat
    decreases s.len(),
{
    if s.len() == 0 {
        0
    } else if s[0] == c {
        0
    } else {
        1 + spec_find(s.skip(1), c)
    }
}

/// `spec_find` names the first occurrence.
proof fn lemma_spec_find(t: Seq<char>, c: char, k: int)
    requires
        0 <= k <= t.len(),
        forall|j: int| 0 <= j < k ==> t[j] != c,
        k < t.len() ==> t[k] == c,
    ensures
        spec_find(t, c) == k,
    decreases t.len(),
{
    if t.len() > 0 && t[0] != c {
        assert(k != 0);
        lemma_spec_find(t.skip(1), c, k - 1);
    }
}

/// Parse one `KEY = "value"` line: a nonempty space-free key, the literal
/// ` = "`, a quote-free value, and a closing quote.
pub open spec fn spec_parse_line(line: Seq<char>) -> Option<(Seq<char>, Seq<char>)> {
    let ksp = spec_find(line, ' ') as int;
    if ksp == 0 || ksp >= line.len() {
        None
    } else if line.len() < ksp + 5 {
        None
    } else if !(line[ksp + 1] == '=' && line[ksp + 2] == ' ' && line[ksp + 3] == '"') {
        None
    } else if line.last() != '"' {
        None
    } else if spec_find(line.skip(ksp + 4), '"') != line.len() - 1 - (ksp + 4) {
        None
    } else {
        Some((line.take(ksp), line.subrange(ksp + 4, line.len() - 1)))
    }
}

/// Parse a whole store text: newline-terminated lines, each in the line
/// format, in order.
pub open spec fn spec_parse_lines(s: Seq<char>) -> Option<Seq<(Seq<char>, Seq<char>)>>
    decreases s.len(),
{
    if s.len() == 0 {
        Some(Seq::empty())
    } else {
        let nl = spec_find(s, '\n') as int;
        if nl >= s.len() {
            None
        } else {
            match spec_parse_line(s.take(nl)) {
                None => None,
                Some(kv) => match spec_parse_lines(s.skip(nl + 1)) {
                    None => None,
                    Some(rest) => Some(seq![kv] + rest),
                },
            }
        }
    }
}

/// The value stored under a lowercased key; a later duplicate wins, as in a
/// map filled front to back.
pub open spec fn spec_lookup(pairs: Seq<(Seq<char>, Seq<char>)>, key: Seq<char>)
    -> Option<Seq<char>>
    decreases pairs.len(),
{
    if pairs.len() == 0 {
        None
    } else if spec_lower(pairs.last().0) == key {
        Some(pairs.last().1)
    } else {
        spec_lookup(pairs.drop_last(), key)
    }
}

/// The views of parsed key/value pairs.
pub open spec fn spec_pair_views(pairs: Seq<(String, String)>) -> Seq<(Seq<char>, Seq<char>)> {
    pairs.map(|i: int, p: (String, String)| (p.0@, p.1@))
}

/// First index of `c` in `s` at or after `from`, or the length when absent.
fn find_char(s: &str, from: usize, c: char) -> (r: usize)
    requires
        from <= s@.len(),
    ensures
        from <= r <= s@.len(),
        r - from == spec_find(s@.skip(from as int), c),
{
    let n = s.unicode_len();
    let mut i = from;
    while i < n
        invariant
            from <= i <= n,
            n == s@.len(),
            forall|j: int| from <= j < i ==> s@[j] != c,
        decreases n - i,
    {
        if s.get_char(i) == c {
            proof {
                lemma_spec_find(s@.skip(from as int), c, i - from);
            }
            return i;
        }
        i = i + 1;
    }
    proof {
        lemma_spec_find(s@.skip(from as int), c, n - from);
    }
    n
}

/// Parse one line of the store text.
fn parse_line(line: &str) -> (r: Option<(String, String)>)
    ensures
        match r {
            Some(kv) => spec_parse_line(line@) == Some((kv.0@, kv.1@)),
            None => spec_parse_line(line@) is None,
        },
{
    let n = line.unicode_len();
    let ksp = find_char(line, 0, ' ');
    proof {
        assert(line@.skip(0) =~= line@);
    }
    if ksp == 0 || ksp >= n {
        return None;
    }
    if n - ksp < 5 {
        return None;
    }
    if !(line.get_char(ksp + 1) == '=' && line.get_char(ksp + 2) == ' ' && line.get_char(ksp
        + 3) == '"') {
        return None;
    }
    if line.get_char(n - 1) != '"' {
        return None;
    }
    let q = find_char(line, ksp + 4, '"');
    if q != n - 1 {
        return None;
    }
    let k = String::from_str(line.substring_char(0, ksp));
    let v = String::from_str(line.substring_char(ksp + 4, n - 1));
    proof {
        assert(k@ =~= line@.take(ksp as int));
        assert(v@ =~= line@.subrange(ksp + 4, line@.len() - 1));
    }
    Some((k, v))
}

/// Parse the whole store text into its key/value pairs.
fn parse_config_lines(s: &str) -> (r: Option<Vec<(String, String)>>)
    ensures
        match r {
            Some(pairs) => spec_parse_lines(s@) == Some(spec_pair_views(pairs@)),
            None => spec_parse_lines(s@) is None,
        },
{
    let n = s.unicode_len();
    let mut pos: usize = 0;
    let mut pairs: Vec<(String, String)> = Vec::new();
    proof {
        assert(s@.skip(0) =~= s@);
        assert(spec_pair_views(pairs@) =~= Seq::<(Seq<char>, Seq<char>)>::empty());
        if spec_parse_lines(s@) is Some {
            assert(spec_pair_views(pairs@) + spec_parse_lines(s@).unwrap() =~= spec_parse_lines(
                s@).unwrap());
        }
    }
    while pos < n
        invariant
            pos <= n,
            n == s@.len(),
            (spec_parse_lines(s@.skip(pos as int)) matches Some(rest) ==> spec_parse_lines(
                s@) == Some(spec_pair_views(pairs@) + rest)),
            (spec_parse_lines(s@.skip(pos as int)) is None ==> spec_parse_lines(s@) is None),
        decreases n - pos,
    {
        let ghost tail0 = s@.skip(pos as int);
        let nl = find_char(s, pos, '\n');
        if nl >= n {
            return None;
        }
        let line = s.substring_char(pos, nl);
        proof {
            assert(line@ =~= tail0.take(nl - pos));
        }
        match parse_line(line) {
            None => {
                return None;
            },
            Some(kv) => {
                let ghost old_pairs = pairs@;
                let ghost pos0 = pos as int;
                pairs.push(kv);
                pos = nl + 1;
                proof {
                    let nlrel = nl - pos0;
                    assert(nlrel == spec_find(tail0, '\n'));
                    assert(s@.skip(pos as int) =~= tail0.skip(nlrel + 1));
                    assert(spec_pair_views(pairs@) =~= spec_pair_views(old_pairs).push(
                        (kv.0@, kv.1@)));
                    if spec_parse_lines(s@.skip(pos as int)) is Some {
                        let rest = spec_parse_lines(s@.skip(pos as int)).unwrap();
                        assert(spec_parse_lines(tail0) == Some(seq![(kv.0@, kv.1@)] + rest));
                        assert(spec_pair_views(old_pairs) + (seq![(kv.0@, kv.1@)] + rest)
                            =~= spec_pair_views(pairs@) + rest);
                    }
                }
            },
        }
    }
    proof {
        assert(s@.skip(n as int) =~= Seq::<char>::empty());
        assert(spec_parse_lines(Seq::<char>::empty()) == Some(
            Seq::<(Seq<char>, Seq<char>)>::empty()));
        assert(spec_pair_views(pairs@) + Seq::<(Seq<char>, Seq<char>)>::empty()
            =~= spec_pair_views(pairs@));
    }
    Some(pairs)
}

/// Look a key up among the parsed pairs, lowercasing stored keys; the last
/// match wins.
fn lookup(pairs: &Vec<(String, String)>, key: &str) -> (r: Option<String>)
    ensures
        match r {
            Some(v) => spec_lookup(spec_pair_views(pairs@), key@) == Some(v@),
            None => spec_lookup(spec_pair_views(pairs@), key@) is None,
        },
{
    let mut i: usize = pairs.len();
    proof {
        assert(spec_pair_views(pairs@).take(pairs@.len() as int) =~= spec_pair_views(pairs@));
    }
    while i > 0
        invariant
            i <= pairs@.len(),
            spec_lookup(spec_pair_views(pairs@), key@) == spec_lookup(spec_pair_views(
                pairs@).take(i as int), key@),
        decreases i,
    {
        i = i - 1;
        let k = crate::text::to_lower(pairs[i].0.as_str());
        if k == String::from_str(key) {
            let v = pairs[i].1.clone();
            proof {
                assert(spec_pair_views(pairs@).take(i + 1).last() == spec_pair_views(
                    pairs@)[i as int]);
            }
            return Some(v);
        }
        proof {
            assert(spec_pair_views(pairs@).take(i + 1).last() == spec_pair_views(
                pairs@)[i as int]);
            assert(spec_pair_views(pairs@).take(i + 1).drop_last() =~= spec_pair_views(
                pairs@).take(i as int));
        }
    }
    proof {
        assert(spec_pair_views(pairs@).take(0) =~= Seq::<(Seq<char>, Seq<char>)>::empty());
    }
    None
}

/// Whether a store text holds a complete, well-formed configuration.
pub open spec fn spec_config_ok(text: Seq<char>) -> bool {
    &&& spec_parse_lines(text) is Some
    &&& (spec_parse_lines(text) matches Some(pairs) ==> {
        &&& spec_lookup(pairs, "ssid"@) is Some
        &&& spec_lookup(pairs, "psk"@) is Some
        &&& (spec_lookup(pairs, "timezone"@) matches Some(v) && crate::text::spec_i32_text_ok(v))
        &&& (spec_lookup(pairs, "idlesleep"@) matches Some(v) && v.len() > 0 && crate::text::spec_all_digits(v) && crate::text::spec_dec_value(v) <= u32::MAX)
        &&& (spec_lookup(pairs, "autocapture"@) matches Some(v) && (v == "true"@ || v == "false"@))
        &&& (spec_lookup(pairs, "resolution"@) matches Some(v) && v.len() > 0 && crate::text::spec_all_digits(v) && crate::text::spec_dec_value(v) <= u32::MAX)
        &&& (spec_lookup(pairs, "trackid"@) matches Some(v) && v.len() > 0 && crate::text::spec_all_digits(v) && crate::text::spec_dec_value(v) <= u32::MAX)
        &&& (spec_lookup(pairs, "duration"@) matches Some(v) && v.len() > 0 && crate::text::spec_all_digits(v) && crate::text::spec_dec_value(v) <= u32::MAX)
        &&& spec_lookup(pairs, "model"@) is Some
        &&& spec_lookup(pairs, "apikey"@) is Some
        &&& (spec_lookup(pairs, "queryopenai"@) matches Some(v) && (v == "true"@ || v == "false"@))
        &&& spec_lookup(pairs, "queryprompt"@) is Some
        &&& spec_lookup(pairs, "postaccount"@) is Some
        &&& spec_lookup(pairs, "postaccesstoken"@) is Some
        &&& spec_lookup(pairs, "storageaccount"@) is Some
        &&& spec_lookup(pairs, "storageaccesstoken"@) is Some
        &&& spec_lookup(pairs, "postmessagetrigger"@) is Some
        &&& (spec_lookup(pairs, "autofocusonce"@) matches Some(v) && (v == "true"@ || v == "false"@))
        &&& (spec_lookup(pairs, "statusreport"@) matches Some(v) && (v == "true"@ || v == "false"@))
        &&& (spec_lookup(pairs, "statusreportinterval"@) matches Some(v) && v.len() > 0 && crate::text::spec_all_digits(v) && crate::text::spec_dec_value(v) <= u32::MAX)
        &&& (spec_lookup(pairs, "postinterval"@) matches Some(v) && v.len() > 0 && crate::text::spec_all_digits(v) && crate::text::spec_dec_value(v) <= u32::MAX)
        &&& (spec_lookup(pairs, "leapday"@) matches Some(v) && crate::text::spec_i32_text_ok(v))
        &&& (spec_lookup(pairs, "leaphour"@) matches Some(v) && crate::text::spec_i32_text_ok(v))
        &&& (spec_lookup(pairs, "leapminute"@) matches Some(v) && crate::text::spec_i32_text_ok(v))
    })
}

impl ConfigData {
    pub fn new() -> (c: ConfigData)
        ensures
            c.wifi_ssid@ == Seq::<char>::empty(),
            c.wifi_psk@ == Seq::<char>::empty(),
            c.timezone_offset == 0,
            c.idle_in_sleep_time == 0,
            !c.auto_capture,
            c.resolution == 0,
            c.track_id == 0,
            c.duration == 0,
            c.model@ == Seq::<char>::empty(),
            c.api_key@ == Seq::<char>::empty(),
            !c.query_openai,
            c.query_prompt@ == Seq::<char>::empty(),
            c.post_account@ == Seq::<char>::empty(),
            c.post_access_token@ == Seq::<char>::empty(),
            c.storage_account@ == Seq::<char>::empty(),
            c.storage_access_token@ == Seq::<char>::empty(),
            c.post_message_trigger@ == Seq::<char>::empty(),
            !c.autofocus_once,
            !c.status_report,
            c.status_report_interval == 0,
            c.post_interval == 0,
            c.leap_day == -1,
            c.leap_hour == -1,
            c.leap_minute == -1,
    {
        ConfigData {
            wifi_ssid: String::new(),
            wifi_psk: String::new(),
            timezone_offset: 0,
            idle_in_sleep_time: 0,
            auto_capture: false,
            resolution: 0,
            track_id: 0,
            duration: 0,
            model: String::new(),
            api_key: String::new(),
            query_openai: false,
            query_prompt: String::new(),
            post_account: String::new(),
            post_access_token: String::new(),
            storage_account: String::new(),
            storage_access_token: String::new(),
            post_message_trigger: String::new(),
            autofocus_once: false,
            status_report: false,
            status_report_interval: 0,
            post_interval: 0,
            leap_day: -1,
            leap_hour: -1,
            leap_minute: -1,
        }
    }

    /// Load the configuration from the store text: every key must be
    /// present (under any letter case) and every numeric or boolean value
    /// must parse; otherwise nothing is changed and the text is rejected.
    pub fn load_config(&mut self, nvs_value: Option<&str>) -> (r: Result<(), CoreError>)
        ensures
            match r {
                Ok(_) => nvs_value matches Some(t) && spec_config_ok(t@) && (spec_parse_lines(
                    t@) matches Some(pairs) && {
                &&& (spec_lookup(pairs, "ssid"@) matches Some(v) && final(self).wifi_ssid@ == v)
                &&& (spec_lookup(pairs, "psk"@) matches Some(v) && final(self).wifi_psk@ == v)
                &&& (spec_lookup(pairs, "timezone"@) matches Some(v) && final(self).timezone_offset == crate::text::spec_i32_text_val(v))
                &&& (spec_lookup(pairs, "idlesleep"@) matches Some(v) && final(self).idle_in_sleep_time == crate::text::spec_dec_value(v))
                &&& (spec_lookup(pairs, "autocapture"@) matches Some(v) && final(self).auto_capture == (v == "true"@))
                &&& (spec_lookup(pairs, "resolution"@) matches Some(v) && final(self).resolution == crate::text::spec_dec_value(v))
                &&& (spec_lookup(pairs, "trackid"@) matches Some(v) && final(self).track_id == crate::text::spec_dec_value(v))
                &&& (spec_lookup(pairs, "duration"@) matches Some(v) && final(self).duration == crate::text::spec_dec_value(v))
                &&& (spec_lookup(pairs, "model"@) matches Some(v) && final(self).model@ == v)
                &&& (spec_lookup(pairs, "apikey"@) matches Some(v) && final(self).api_key@ == v)
                &&& (spec_lookup(pairs, "queryopenai"@) matches Some(v) && final(self).query_openai == (v == "true"@))
                &&& (spec_lookup(pairs, "queryprompt"@) matches Some(v) && final(self).query_prompt@ == v)
                &&& (spec_lookup(pairs, "postaccount"@) matches Some(v) && final(self).post_account@ == v)
                &&& (spec_lookup(pairs, "postaccesstoken"@) matches Some(v) && final(self).post_access_token@ == v)
                &&& (spec_lookup(pairs, "storageaccount"@) matches Some(v) && final(self).storage_account@ == v)
                &&& (spec_lookup(pairs, "storageaccesstoken"@) matches Some(v) && final(self).storage_access_token@ == v)
                &&& (spec_lookup(pairs, "postmessagetrigger"@) matches Some(v) && final(self).post_message_trigger@ == v)
                &&& (spec_lookup(pairs, "autofocusonce"@) matches Some(v) && final(self).autofocus_once == (v == "true"@))
                &&& (spec_lookup(pairs, "statusreport"@) matches Some(v) && final(self).status_report == (v == "true"@))
                &&& (spec_lookup(pairs, "statusreportinterval"@) matches Some(v) && final(self).status_report_interval == crate::text::spec_dec_value(v))
                &&& (spec_lookup(pairs, "postinterval"@) matches Some(v) && final(self).post_interval == crate::text::spec_dec_value(v))
                &&& (spec_lookup(pairs, "leapday"@) matches Some(v) && final(self).leap_day == crate::text::spec_i32_text_val(v))
                &&& (spec_lookup(pairs, "leaphour"@) matches Some(v) && final(self).leap_hour == crate::text::spec_i32_text_val(v))
                &&& (spec_lookup(pairs, "leapminute"@) matches Some(v) && final(self).leap_minute == crate::text::spec_i32_text_val(v))
                }),
                Err(e) => {
                    &&& e == CoreError::InvalidConfig
                    &&& *final(self) == *old(self)
                    &&& (nvs_value matches Some(t) ==> !spec_config_ok(t@))
                },
            },
            nvs_value is None ==> r is Err,
    {
        let text = match nvs_value {
            None => {
                return Err(CoreError::InvalidConfig);
            },
            Some(t) => t,
        };
        let pairs = match parse_config_lines(text) {
            None => {
                return Err(CoreError::InvalidConfig);
            },
            Some(p) => p,
        };
        let wifi_ssid = match lookup(&pairs, "ssid") {
            Some(v) => v,
            None => {
                return Err(CoreError::InvalidConfig);
            },
        };
        let wifi_psk = match lookup(&pairs, "psk") {
            Some(v) => v,
            None => {
                return Err(CoreError::InvalidConfig);
            },
        };
        let timezone_offset = match lookup(&pairs, "timezone") {
            Some(v) => match crate::text::parse_i32(v.as_str()) {
                Some(x) => x,
                None => {
                    return Err(CoreError::InvalidConfig);
                },
            },
            None => {
                return Err(CoreError::InvalidConfig);
            },
        };
        let idle_in_sleep_time = match lookup(&pairs, "idlesleep") {
            Some(v) => match crate::text::parse_u32(v.as_str()) {
                Some(x) => x,
                None => {
                    return Err(CoreError::InvalidConfig);
                },
            },
            None => {
                return Err(CoreError::InvalidConfig);
            },
        };
        let auto_capture = match lookup(&pairs, "autocapture") {
            Some(v) => match crate::text::parse_bool(v.as_str()) {
                Some(x) => x,
                None => {
                    return Err(CoreError::InvalidConfig);
                },
            },
            None => {
                return Err(CoreError::InvalidConfig);
            },
        };
        let resolution = match lookup(&pairs, "resolution") {
            Some(v) => match crate::text::parse_u32(v.as_str()) {
                Some(x) => x,
                None => {
                    return Err(CoreError::InvalidConfig);
                },
            },
            None => {
                return Err(CoreError::InvalidConfig);
            },
        };
        let track_id = match lookup(&pairs, "trackid") {
            Some(v) => match crate::text::parse_u32(v.as_str()) {
                Some(x) => x,
                None => {
                    return Err(CoreError::InvalidConfig);
                },
            },
            None => {
                return Err(CoreError::InvalidConfig);
            },
        };
        let duration = match lookup(&pairs, "duration") {
            Some(v) => match crate::text::parse_u32(v.as_str()) {
                Some(x) => x,
                None => {
                    return Err(CoreError::InvalidConfig);
                },
            },
            None => {
                return Err(CoreError::InvalidConfig);
            },
        };
        let model = match lookup(&pairs, "model") {
            Some(v) => v,
            None => {
                return Err(CoreError::InvalidConfig);
            },
        };
        let api_key = match lookup(&pairs, "apikey") {
            Some(v) => v,
            None => {
                return Err(CoreError::InvalidConfig);
            },
        };
        let query_openai = match lookup(&pairs, "queryopenai") {
            Some(v) => match crate::text::parse_bool(v.as_str()) {
                Some(x) => x,
                None => {
                    return Err(CoreError::InvalidConfig);
                },
            },
            None => {
                return Err(CoreError::InvalidConfig);
            },
        };
        let query_prompt = match lookup(&pairs, "queryprompt") {
            Some(v) => v,
            None => {
                return Err(CoreError::InvalidConfig);
            },
        };
        let post_account = match lookup(&pairs, "postaccount") {
            Some(v) => v,
            None => {
                return Err(CoreError::InvalidConfig);
            },
        };
        let post_access_token = match lookup(&pairs, "postaccesstoken") {
            Some(v) => v,
            None => {
                return Err(CoreError::InvalidConfig);
            },
        };
        let storage_account = match lookup(&pairs, "storageaccount") {
            Some(v) => v,
            None => {
                return Err(CoreError::InvalidConfig);
            },
        };
        let storage_access_token = match lookup(&pairs, "storageaccesstoken") {
            Some(v) => v,
            None => {
                return Err(CoreError::InvalidConfig);
            },
        };
        let post_message_trigger = match lookup(&pairs, "postmessagetrigger") {
            Some(v) => v,
            None => {
                return Err(CoreError::InvalidConfig);
            },
        };
        let autofocus_once = match lookup(&pairs, "autofocusonce") {
            Some(v) => match crate::text::parse_bool(v.as_str()) {
                Some(x) => x,
                None => {
                    return Err(CoreError::InvalidConfig);
                },
            },
            None => {
                return Err(CoreError::InvalidConfig);
            },
        };
        let status_report = match lookup(&pairs, "statusreport") {
            Some(v) => match crate::text::parse_bool(v.as_str()) {
                Some(x) => x,
                None => {
                    return Err(CoreError::InvalidConfig);
                },
            },
            None => {
                return Err(CoreError::InvalidConfig);
            },
        };
        let status_report_interval = match lookup(&pairs, "statusreportinterval") {
            Some(v) => match crate::text::parse_u32(v.as_str()) {
                Some(x) => x,
                None => {
                    return Err(CoreError::InvalidConfig);
                },
            },
            None => {
                return Err(CoreError::InvalidConfig);
            },
        };
        let post_interval = match lookup(&pairs, "postinterval") {
            Some(v) => match crate::text::parse_u32(v.as_str()) {
                Some(x) => x,
                None => {
                    return Err(CoreError::InvalidConfig);
                },
            },
            None => {
                return Err(CoreError::InvalidConfig);
            },
        };
        let leap_day = match lookup(&pairs, "leapday") {
            Some(v) => match crate::text::parse_i32(v.as_str()) {
                Some(x) => x,
                None => {
                    return Err(CoreError::InvalidConfig);
                },
            },
            None => {
                return Err(CoreError::InvalidConfig);
            },
        };
        let leap_hour = match lookup(&pairs, "leaphour") {
            Some(v) => match crate::text::parse_i32(v.as_str()) {
                Some(x) => x,
                None => {
                    return Err(CoreError::InvalidConfig);
                },
            },
            None => {
                return Err(CoreError::InvalidConfig);
            },
        };
        let leap_minute = match lookup(&pairs, "leapminute") {
            Some(v) => match crate::text::parse_i32(v.as_str()) {
                Some(x) => x,
                None => {
                    return Err(CoreError::InvalidConfig);
                },
            },
            None => {
                return Err(CoreError::InvalidConfig);
            },
        };
        self.wifi_ssid = wifi_ssid;
        self.wifi_psk = wifi_psk;
        self.timezone_offset = timezone_offset;
        self.idle_in_sleep_time = idle_in_sleep_time;
        self.auto_capture = auto_capture;
        self.resolution = resolution;
        self.track_id = track_id;
        self.duration = duration;
        self.model = model;
        self.api_key = api_key;
        self.query_openai = query_openai;
        self.query_prompt = query_prompt;
        self.post_account = post_account;
        self.post_access_token = post_access_token;
        self.storage_account = storage_account;
        self.storage_access_token = storage_access_token;
        self.post_message_trigger = post_message_trigger;
        self.autofocus_once = autofocus_once;
        self.status_report = status_report;
        self.status_report_interval = status_report_interval;
        self.post_interval = post_interval;
        self.leap_day = leap_day;
        self.leap_hour = leap_hour;
        self.leap_minute = leap_minute;
        Ok(())
    }

    /// The built-in defaults as storable (name, value) pairs.
    pub fn set_default_config(&self) -> (r: Vec<(String, String)>)
        ensures
            spec_pair_views(r@) == spec_default_pairs(),
    {
        let mut r: Vec<(String, String)> = Vec::new();
        let defaults = Config::new();
        r.push((String::from_str("SSID"), String::from_str(defaults.wifi_ssid)));
        r.push((String::from_str("PSK"), String::from_str(defaults.wifi_psk)));
        r.push((String::from_str("TIMEZONE"), String::from_str(defaults.timezone_offset)));
        r.push((String::from_str("IDLESLEEP"), String::from_str(defaults.idle_in_sleep_time)));
        r.push((String::from_str("AUTOCAPTURE"), String::from_str(defaults.auto_capture)));
        r.push((String::from_str("RESOLUTION"), String::from_str(defaults.resolution)));
        r.push((String::from_str("TRACKID"), String::from_str(defaults.track_id)));
        r.push((String::from_str("DURATION"), String::from_str(defaults.duration)));
        r.push((String::from_str("MODEL"), String::from_str(defaults.model)));
        r.push((String::from_str("APIKEY"), String::from_str(defaults.api_key)));
        r.push((String::from_str("QUERYOPENAI"), String::from_str(defaults.query_openai)));
        r.push((String::from_str("QUERYPROMPT"), String::from_str(defaults.query_prompt)));
        r.push((String::from_str("POSTACCOUNT"), String::from_str(defaults.post_account)));
        r.push((String::from_str("POSTACCESSTOKEN"), String::from_str(defaults.post_access_token)));
        r.push((String::from_str("STORAGEACCOUNT"), String::from_str(defaults.storage_account)));
        r.push((String::from_str("STORAGEACCESSTOKEN"), String::from_str(defaults.storage_access_token)));
        r.push((String::from_str("POSTMESSAGETRIGGER"), String::from_str(defaults.post_message_trigger)));
        r.push((String::from_str("AUTOFOCUSONCE"), String::from_str(defaults.autofocus_once)));
        r.push((String::from_str("STATUSREPORT"), String::from_str(defaults.status_report)));
        r.push((String::from_str("STATUSREPORTINTERVAL"), String::from_str(defaults.status_report_interval)));
        r.push((String::from_str("POSTINTERVAL"), String::from_str(defaults.post_interval)));
        r.push((String::from_str("LEAPDAY"), String::from_str(defaults.leap_day)));
        r.push((String::from_str("LEAPHOUR"), String::from_str(defaults.leap_hour)));
        r.push((String::from_str("LEAPMINUTE"), String::from_str(defaults.leap_minute)));
        proof {
            assert(spec_pair_views(r@) =~= spec_default_pairs());
        }
        r
    }

    /// The current configuration as storable (name, value) pairs.
    pub fn get_all_config(&self) -> (r: Vec<(String, String)>)
        ensures
            spec_pair_views(r@) == self.spec_all_pairs(),
    {
        let mut r: Vec<(String, String)> = Vec::new();
        r.push((String::from_str("SSID"), self.wifi_ssid.clone()));
        r.push((String::from_str("PSK"), self.wifi_psk.clone()));
        r.push((String::from_str("TIMEZONE"), crate::text::i32_to_dec(self.timezone_offset)));
        r.push((String::from_str("IDLESLEEP"), crate::text::u32_to_dec(self.idle_in_sleep_time)));
        r.push((String::from_str("AUTOCAPTURE"), crate::text::bool_to_str(self.auto_capture)));
        r.push((String::from_str("RESOLUTION"), crate::text::u32_to_dec(self.resolution)));
        r.push((String::from_str("TRACKID"), crate::text::u32_to_dec(self.track_id)));
        r.push((String::from_str("DURATION"), crate::text::u32_to_dec(self.duration)));
        r.push((String::from_str("MODEL"), self.model.clone()));
        r.push((String::from_str("APIKEY"), self.api_key.clone()));
        r.push((String::from_str("QUERYOPENAI"), crate::text::bool_to_str(self.query_openai)));
        r.push((String::from_str("QUERYPROMPT"), self.query_prompt.clone()));
        r.push((String::from_str("POSTACCOUNT"), self.post_account.clone()));
        r.push((String::from_str("POSTACCESSTOKEN"), self.post_access_token.clone()));
        r.push((String::from_str("STORAGEACCOUNT"), self.storage_account.clone()));
        r.push((String::from_str("STORAGEACCESSTOKEN"), self.storage_access_token.clone()));
        r.push((String::from_str("POSTMESSAGETRIGGER"), self.post_message_trigger.clone()));
        r.push((String::from_str("AUTOFOCUSONCE"), crate::text::bool_to_str(self.autofocus_once)));
        r.push((String::from_str("STATUSREPORT"), crate::text::bool_to_str(self.status_report)));
        r.push((String::from_str("STATUSREPORTINTERVAL"), crate::text::u32_to_dec(self.status_report_interval)));
        r.push((String::from_str("POSTINTERVAL"), crate::text::u32_to_dec(self.post_interval)));
        r.push((String::from_str("LEAPDAY"), crate::text::i32_to_dec(self.leap_day)));
        r.push((String::from_str("LEAPHOUR"), crate::text::i32_to_dec(self.leap_hour)));
        r.push((String::from_str("LEAPMINUTE"), crate::text::i32_to_dec(self.leap_minute)));
        proof {
            assert(spec_pair_views(r@) =~= self.spec_all_pairs());
        }
        r
    }

    /// The (name, value) pairs `get_all_config` stores.
    pub open spec fn spec_all_pairs(self) -> Seq<(Seq<char>, Seq<char>)> {
        Seq::<(Seq<char>, Seq<char>)>::empty()
        + seq![("SSID"@, self.wifi_ssid@)]
        + seq![("PSK"@, self.wifi_psk@)]
        + seq![("TIMEZONE"@, crate::text::spec_signed_dec(self.timezone_offset as int))]
        + seq![("IDLESLEEP"@, crate::text::spec_dec_digits(self.idle_in_sleep_time as nat))]
        + seq![("AUTOCAPTURE"@, crate::text::spec_bool_str(self.auto_capture))]
        + seq![("RESOLUTION"@, crate::text::spec_dec_digits(self.resolution as nat))]
        + seq![("TRACKID"@, crate::text::spec_dec_digits(self.track_id as nat))]
        + seq![("DURATION"@, crate::text::spec_dec_digits(self.duration as nat))]
        + seq![("MODEL"@, self.model@)]
        + seq![("APIKEY"@, self.api_key@)]
        + seq![("QUERYOPENAI"@, crate::text::spec_bool_str(self.query_openai))]
        + seq![("QUERYPROMPT"@, self.query_prompt@)]
        + seq![("POSTACCOUNT"@, self.post_account@)]
        + seq![("POSTACCESSTOKEN"@, self.post_access_token@)]
        + seq![("STORAGEACCOUNT"@, self.storage_account@)]
        + seq![("STORAGEACCESSTOKEN"@, self.storage_access_token@)]
        + seq![("POSTMESSAGETRIGGER"@, self.post_message_trigger@)]
        + seq![("AUTOFOCUSONCE"@, crate::text::spec_bool_str(self.autofocus_once))]
        + seq![("STATUSREPORT"@, crate::text::spec_bool_str(self.status_report))]
        + seq![("STATUSREPORTINTERVAL"@, crate::text::spec_dec_digits(self.status_report_interval as nat))]
        + seq![("POSTINTERVAL"@, crate::text::spec_dec_digits(self.post_interval as nat))]
        + seq![("LEAPDAY"@, crate::text::spec_signed_dec(self.leap_day as int))]
        + seq![("LEAPHOUR"@, crate::text::spec_signed_dec(self.leap_hour as int))]
        + seq![("LEAPMINUTE"@, crate::text::spec_signed_dec(self.leap_minute as int))]
    }
}

/// The (name, value) pairs of the built-in defaults.
pub open spec fn spec_default_pairs() -> Seq<(Seq<char>, Seq<char>)> {
    Seq::<(Seq<char>, Seq<char>)>::empty()
        + seq![("SSID"@, ""@)]
        + seq![("PSK"@, ""@)]
        + seq![("TIMEZONE"@, "0"@)]
        + seq![("IDLESLEEP"@, "300"@)]
        + seq![("AUTOCAPTURE"@, "false"@)]
        + seq![("RESOLUTION"@, "0"@)]
        + seq![("TRACKID"@, "0"@)]
        + seq![("DURATION"@, "0"@)]
        + seq![("MODEL"@, "gpt-4-turbo"@)]
        + seq![("APIKEY"@, "api-key"@)]
        + seq![("QUERYOPENAI"@, "false"@)]
        + seq![("QUERYPROMPT"@, ""@)]
        + seq![("POSTACCOUNT"@, ""@)]
        + seq![("POSTACCESSTOKEN"@, ""@)]
        + seq![("STORAGEACCOUNT"@, ""@)]
        + seq![("STORAGEACCESSTOKEN"@, ""@)]
        + seq![("POSTMESSAGETRIGGER"@, ""@)]
        + seq![("AUTOFOCUSONCE"@, "true"@)]
        + seq![("STATUSREPORT"@, "false"@)]
        + seq![("STATUSREPORTINTERVAL"@, "600"@)]
        + seq![("POSTINTERVAL"@, "3600"@)]
        + seq![("LEAPDAY"@, "-1"@)]
        + seq![("LEAPHOUR"@, "-1"@)]
        + seq![("LEAPMINUTE"@, "-1"@)]
}

/// One stored line for a (name, value) pair.
pub open spec fn spec_toml_line(k: Seq<char>, v: Seq<char>) -> Seq<char> {
    k + " = \""@ + v + "\"\n"@
}

/// The store text for a run of pairs.
pub open spec fn spec_toml_lines(pairs: Seq<(Seq<char>, Seq<char>)>) -> Seq<char>
    decreases pairs.len(),
{
    if pairs.len() == 0 {
        Seq::empty()
    } else {
        spec_toml_lines(pairs.drop_last()) + spec_toml_line(pairs.last().0, pairs.last().1)
    }
}

/// Render (name, value) pairs as the store text, one line per pair.
pub fn convert_config_to_toml_string(keyval: &Vec<(String, String)>) -> (r: String)
    ensures
        r@ == spec_toml_lines(spec_pair_views(keyval@)),
{
    let mut r = String::new();
    let mut i: usize = 0;
    while i < keyval.len()
        invariant
            i <= keyval@.len(),
            r@ == spec_toml_lines(spec_pair_views(keyval@).take(i as int)),
        decreases keyval@.len() - i,
    {
        r.append(keyval[i].0.as_str());
        r.append(" = \"");
        r.append(keyval[i].1.as_str());
        r.append("\"\n");
        i = i + 1;
        proof {
            assert(spec_pair_views(keyval@).take(i as int).drop_last() =~= spec_pair_views(
                keyval@).take(i - 1));
            assert(spec_pair_views(keyval@).take(i as int).last() == spec_pair_views(
                keyval@)[i - 1]);
            assert(r@ =~= spec_toml_lines(spec_pair_views(keyval@).take(i as int)));
        }
    }
    proof {
        assert(spec_pair_views(keyval@).take(keyval@.len() as int) =~= spec_pair_views(
            keyval@));
    }
    r
}

} // verus!
