//! Service configuration, from the settings that the environment provides.
use vstd::prelude::*;

use crate::network::MAINNET_RPC_URL;
use crate::text::{parse_u16, parse_u64, parse_unsigned, trim_text, trimmed};

verus! {

/// How the service runs.
#[derive(Clone, Debug)]
pub struct Config {
    pub sui_rpc_url: String,
    pub polling_interval_secs: u64,
    pub webhook_url: Option<String>,
    pub discord_webhook_url: Option<String>,
    pub monitored_object_ids: Vec<String>,
    pub port: u16,
}

/// A setting that cannot be used.
#[derive(Clone, Debug)]
pub enum ConfigError {
    /// The named setting does not parse.
    InvalidValue(String),
    /// The named setting is required and absent.
    MissingRequired(String),
}

/// Polling interval, in seconds, when none is set.
pub const DEFAULT_POLLING_INTERVAL: &'static str = "10";

/// HTTP port when none is set.
pub const DEFAULT_PORT: &'static str = "8080";

/// The pieces of `s` between commas, in order; as many as there are commas,
/// plus one.
pub open spec fn split_commas(s: Seq<char>) -> Seq<Seq<char>>
    decreases s.len(),
{
    if s.len() == 0 {
        seq![Seq::empty()]
    } else {
        let parts = split_commas(s.drop_last());
        if s.last() == ',' {
            parts.push(Seq::empty())
        } else {
            parts.update(parts.len() - 1, parts.last().push(s.last()))
        }
    }
}

/// Splitting always gives at least one piece.
pub proof fn lemma_split_commas_nonempty(s: Seq<char>)
    ensures
        split_commas(s).len() >= 1,
    decreases s.len(),
{
    if s.len() > 0 {
        lemma_split_commas_nonempty(s.drop_last());
    }
}

/// The trimmed pieces that are not empty, in order.
pub open spec fn kept_ids(parts: Seq<Seq<char>>) -> Seq<Seq<char>>
    decreases parts.len(),
{
    if parts.len() == 0 {
        Seq::empty()
    } else {
        let kept = kept_ids(parts.drop_last());
        let t = trimmed(parts.last());
        if t.len() > 0 {
            kept.push(t)
        } else {
            kept
        }
    }
}

/// The object ids that a comma-separated list names.
pub open spec fn object_ids_in(list: Seq<char>) -> Seq<Seq<char>> {
    kept_ids(split_commas(list))
}

/// A setting's text, or `default` when it is absent.
pub open spec fn setting_or(setting: Option<String>, default: Seq<char>) -> Seq<char> {
    match setting {
        Some(s) => s@,
        None => default,
    }
}

/// A URL setting counts only when it is not empty.
pub open spec fn non_empty(setting: Option<String>) -> Option<Seq<char>> {
    match setting {
        Some(s) => if s@.len() > 0 {
            Some(s@)
        } else {
            None
        },
        None => None,
    }
}

/// The views of `v`.
pub open spec fn texts(v: Seq<String>) -> Seq<Seq<char>> {
    v.map_values(|s: String| s@)
}

/// The ids that a comma-separated list names: each piece trimmed, empty
/// pieces dropped.
pub fn parse_object_ids(list: &str) -> (r: Vec<String>)
    ensures
        texts(r@) == object_ids_in(list@),
{
    let n = list.unicode_len();
    let ghost s = list@;
    let ghost mut done: Seq<Seq<char>> = Seq::empty();
    let mut ids: Vec<String> = Vec::new();
    let mut start: usize = 0;
    let mut i: usize = 0;
    proof {
        assert(s.subrange(0, 0) =~= Seq::<char>::empty());
        assert(seq![Seq::<char>::empty()] =~= done.push(s.subrange(0, 0)));
    }
    while i < n
        invariant
            s == list@,
            n == s.len(),
            start <= i <= n,
            split_commas(s.subrange(0, i as int)) == done.push(s.subrange(start as int, i as int)),
            texts(ids@) == kept_ids(done),
        decreases n - i,
    {
        let c = list.get_char(i);
        proof {
            assert(s.subrange(0, i + 1).drop_last() =~= s.subrange(0, i as int));
            assert(s.subrange(0, i + 1).last() == c);
            lemma_split_commas_nonempty(s.subrange(0, i as int));
        }
        if c == ',' {
            let piece = list.substring_char(start, i);
            let t = trim_text(piece);
            proof {
                assert(done.push(piece@).drop_last() =~= done);
            }
            if t.as_str().unicode_len() > 0 {
                ids.push(t);
                proof {
                    assert(texts(ids@) =~= texts(ids@.drop_last()).push(ids@.last()@));
                }
            }
            proof {
                assert(done.push(piece@).drop_last() =~= done);
                assert(texts(ids@) == kept_ids(done.push(piece@)));
                done = done.push(piece@);
                assert(s.subrange(i + 1, i + 1) =~= Seq::<char>::empty());
            }
            start = i + 1;
        } else {
            proof {
                assert(s.subrange(start as int, i + 1) =~= s.subrange(start as int, i as int).push(c));
                assert(done.push(s.subrange(start as int, i as int)).update(done.len() as int, s.subrange(start as int, i + 1))
                    =~= done.push(s.subrange(start as int, i + 1)));
            }
        }
        i = i + 1;
    }
    let piece = list.substring_char(start, n);
    let t = trim_text(piece);
    proof {
        assert(s.subrange(0, n as int) =~= s);
        assert(done.push(piece@).drop_last() =~= done);
    }
    if t.as_str().unicode_len() > 0 {
        ids.push(t);
        proof {
            assert(texts(ids@) =~= texts(ids@.drop_last()).push(ids@.last()@));
        }
    }
    ids
}

/// A setting's text, or `default` when it is absent.
fn setting_text(setting: &Option<String>, default: &str) -> (r: String)
    ensures
        r@ == setting_or(*setting, default@),
{
    match setting {
        Some(s) => s.clone(),
        None => String::from_str(default),
    }
}

/// A URL setting, dropped when empty.
fn url_setting(setting: Option<String>) -> (r: Option<String>)
    ensures
        match r {
            Some(u) => non_empty(setting) == Some(u@),
            None => non_empty(setting) is None,
        },
{
    match setting {
        Some(s) => if s.as_str().unicode_len() > 0 {
            Some(s)
        } else {
            None
        },
        None => None,
    }
}

impl Config {
    /// The configuration that the given settings describe. An absent RPC
    /// URL means the mainnet node, an absent interval 10 seconds, an absent
    /// port 8080; empty alert URLs count as absent; the object list is
    /// comma-separated. The interval is checked before the port.
    pub fn from_settings(
        sui_rpc_url: Option<String>,
        polling_interval_secs: Option<String>,
        webhook_url: Option<String>,
        discord_webhook_url: Option<String>,
        monitored_object_ids: Option<String>,
        port: Option<String>,
    ) -> (r: Result<Config, ConfigError>)
        ensures
            parse_unsigned(setting_or(polling_interval_secs, DEFAULT_POLLING_INTERVAL@), u64::MAX as nat) is None
                ==> (r matches Err(ConfigError::InvalidValue(name)) && name@ == "POLLING_INTERVAL_SECS"@),
            parse_unsigned(setting_or(polling_interval_secs, DEFAULT_POLLING_INTERVAL@), u64::MAX as nat) is Some
                && parse_unsigned(setting_or(port, DEFAULT_PORT@), u16::MAX as nat) is None ==> (r matches Err(
                ConfigError::InvalidValue(name),
            ) && name@ == "PORT"@),
            r matches Ok(c) ==> {
                &&& c.sui_rpc_url@ == setting_or(sui_rpc_url, MAINNET_RPC_URL@)
                &&& parse_unsigned(setting_or(polling_interval_secs, DEFAULT_POLLING_INTERVAL@), u64::MAX as nat)
                    == Some(c.polling_interval_secs as nat)
                &&& non_empty(webhook_url) == match c.webhook_url {
                    Some(u) => Some(u@),
                    None => None,
                }
                &&& non_empty(discord_webhook_url) == match c.discord_webhook_url {
                    Some(u) => Some(u@),
                    None => None,
                }
                &&& texts(c.monitored_object_ids@) == object_ids_in(setting_or(monitored_object_ids, Seq::empty()))
                &&& parse_unsigned(setting_or(port, DEFAULT_PORT@), u16::MAX as nat) == Some(c.port as nat)
            },
            (parse_unsigned(setting_or(polling_interval_secs, DEFAULT_POLLING_INTERVAL@), u64::MAX as nat) is Some
                && parse_unsigned(setting_or(port, DEFAULT_PORT@), u16::MAX as nat) is Some) ==> r is Ok,
    {
        let url = setting_text(&sui_rpc_url, MAINNET_RPC_URL);
        let interval_text = setting_text(&polling_interval_secs, DEFAULT_POLLING_INTERVAL);
        let interval = match parse_u64(interval_text.as_str()) {
            Some(v) => v,
            None => {
                return Err(ConfigError::InvalidValue(String::from_str("POLLING_INTERVAL_SECS")));
            },
        };
        let webhook = url_setting(webhook_url);
        let discord = url_setting(discord_webhook_url);
        let list = setting_text(&monitored_object_ids, "");
        proof {
            reveal_strlit("");
            assert(list@ == setting_or(monitored_object_ids, Seq::empty()));
        }
        let ids = parse_object_ids(list.as_str());
        let port_text = setting_text(&port, DEFAULT_PORT);
        let port_number = match parse_u16(port_text.as_str()) {
            Some(v) => v,
            None => {
                return Err(ConfigError::InvalidValue(String::from_str("PORT")));
            },
        };
        Ok(
            Config {
                sui_rpc_url: url,
                polling_interval_secs: interval,
                webhook_url: webhook,
                discord_webhook_url: discord,
                monitored_object_ids: ids,
                port: port_number,
            },
        )
    }
}

} // verus!
