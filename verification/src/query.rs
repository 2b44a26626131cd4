//! Character-exact construction of the remote log-query command line.
//!
//! A builder collects ordered fragments (selector, time range, pagination
//! flags); `get_query` emits them joined by single spaces, with the
//! invocation prefix — binary path, credentials, address and tenant id —
//! always first, whatever the call order. The builder is single-use: it is
//! consumed by `get_query`, so fragments cannot leak between tasks.

use vstd::prelude::*;
use vstd::string::*;

use crate::config::{address_text, org_id_text, LokiConfig};
use crate::text::{dec_text, joined_text, lemma_joined_push, u32_dec};
use crate::time::{format_timestamp, ts_text, TimeFormat, Timestamp};

verus! {

/// The invocation prefix: binary path, credentials, address and tenant id.
pub open spec fn head_text(c: LokiConfig) -> Seq<char> {
    "/opt/logcli --username=\""@ + c.login@ + "\" --password=\""@ + c.password@ + "\" --addr=\""@
        + address_text() + "\" --org-id=\""@ + org_id_text() + "\" -q"@
}

/// A one-predicate selector clause on `label="value"`.
pub open spec fn selector_text(label: Seq<char>, value: Seq<char>) -> Seq<char> {
    "query '{"@ + label + "=\""@ + value + "\"}'"@
}

/// A selector clause conjoining the label predicate with an instance
/// predicate.
pub open spec fn selector_pair_text(
    label: Seq<char>,
    value: Seq<char>,
    instance_label: Seq<char>,
    instance_value: Seq<char>,
) -> Seq<char> {
    "query '{"@ + label + "=\""@ + value + "\", "@ + instance_label + "=\""@ + instance_value
        + "\"}'"@
}

/// A bare instance predicate fragment.
pub open spec fn instance_text(pod: Seq<char>) -> Seq<char> {
    "instance=\""@ + pod + "\""@
}

/// The `--from` flag under the builder's time format.
pub open spec fn from_text(ts: Timestamp, fmt: TimeFormat) -> Seq<char> {
    "--from='"@ + ts_text(ts, fmt) + "'"@
}

/// The `--to` flag under the builder's time format.
pub open spec fn to_text(ts: Timestamp, fmt: TimeFormat) -> Seq<char> {
    "--to='"@ + ts_text(ts, fmt) + "'"@
}

/// The `--batch` flag.
pub open spec fn batch_text(n: nat) -> Seq<char> {
    "--batch="@ + dec_text(n)
}

/// The `--limit` flag.
pub open spec fn limit_text(n: nat) -> Seq<char> {
    "--limit "@ + dec_text(n)
}

/// The `--forward` flag.
pub open spec fn forward_text() -> Seq<char> {
    "--forward"@
}

/// The raw output flag.
pub open spec fn raw_text() -> Seq<char> {
    "-o raw"@
}

/// The full command line: the invocation prefix, then every fragment in the
/// order it was added, all joined by single spaces.
pub open spec fn query_text(c: LokiConfig, frags: Seq<Seq<char>>) -> Seq<char> {
    joined_text(seq![head_text(c)] + frags)
}

/// Collects the fragments of one log-query command line.
pub struct LokiQueryBuilder<'a> {
    query: Vec<String>,
    time_format: TimeFormat,
    loki_creds: &'a LokiConfig,
}

impl<'a> LokiQueryBuilder<'a> {
    /// The fragments added so far, in order.
    pub closed spec fn fragments(self) -> Seq<Seq<char>> {
        self.query.deep_view()
    }

    /// The timestamp format the time-range flags use.
    pub closed spec fn fmt(self) -> TimeFormat {
        self.time_format
    }

    /// The log-store credentials the command line embeds.
    pub closed spec fn creds(self) -> LokiConfig {
        *self.loki_creds
    }

    /// An empty builder over the given format and credentials.
    pub fn new(time_format: TimeFormat, loki_creds: &'a LokiConfig) -> (r: Self)
        ensures
            r.fragments() == Seq::<Seq<char>>::empty(),
            r.fmt() == time_format,
            r.creds() == *loki_creds,
    {
        let r = LokiQueryBuilder { query: Vec::new(), time_format, loki_creds };
        proof {
            assert(r.fragments() =~= Seq::<Seq<char>>::empty());
        }
        r
    }

    /// Appends a selector clause on `label="val"`; when an instance label and
    /// value are both given, the clause conjoins the two predicates.
    pub fn add_query(
        self,
        label: &str,
        val: &str,
        instance: Option<&str>,
        instance_val: Option<&str>,
    ) -> (r: Self)
        ensures
            r.fragments() == self.fragments().push(
                if instance is Some && instance_val is Some {
                    selector_pair_text(label@, val@, instance->0@, instance_val->0@)
                } else {
                    selector_text(label@, val@)
                },
            ),
            r.fmt() == self.fmt(),
            r.creds() == self.creds(),
    {
        let mut q = "query '{".to_owned();
        q.append(label);
        q.append("=\"");
        q.append(val);
        if instance.is_some() && instance_val.is_some() {
            q.append("\", ");
            q.append(instance.unwrap());
            q.append("=\"");
            q.append(instance_val.unwrap());
            proof {
                assert(q@ + "\"}'"@ =~= selector_pair_text(
                    label@,
                    val@,
                    instance->0@,
                    instance_val->0@,
                ));
            }
        } else {
            proof {
                assert(q@ + "\"}'"@ =~= selector_text(label@, val@));
            }
        }
        q.append("\"}'");
        self.push_fragment(q)
    }

    /// Appends a bare instance predicate on the given pod name.
    pub fn add_instance(self, pod_name: &str) -> (r: Self)
        ensures
            r.fragments() == self.fragments().push(instance_text(pod_name@)),
            r.fmt() == self.fmt(),
            r.creds() == self.creds(),
    {
        let mut q = "instance=\"".to_owned();
        q.append(pod_name);
        q.append("\"");
        proof {
            assert(q@ =~= instance_text(pod_name@));
        }
        self.push_fragment(q)
    }

    /// Appends the `--from` flag, rendered from the configured window start.
    pub fn add_from(self) -> (r: Self)
        requires
            self.creds().log_from matches Some(ts) && ts.wf(),
        ensures
            r.fragments() == self.fragments().push(
                from_text(self.creds().log_from->0, self.fmt()),
            ),
            r.fmt() == self.fmt(),
            r.creds() == self.creds(),
    {
        let ts = self.loki_creds.log_from.unwrap();
        let rendered = format_timestamp(&ts, self.time_format);
        let mut q = "--from='".to_owned();
        q.append(rendered.as_str());
        q.append("'");
        proof {
            assert(q@ =~= from_text(self.creds().log_from->0, self.fmt()));
        }
        self.push_fragment(q)
    }

    /// Appends the `--to` flag, rendered from the configured window end.
    pub fn add_to(self) -> (r: Self)
        requires
            self.creds().log_to matches Some(ts) && ts.wf(),
        ensures
            r.fragments() == self.fragments().push(to_text(self.creds().log_to->0, self.fmt())),
            r.fmt() == self.fmt(),
            r.creds() == self.creds(),
    {
        let ts = self.loki_creds.log_to.unwrap();
        let rendered = format_timestamp(&ts, self.time_format);
        let mut q = "--to='".to_owned();
        q.append(rendered.as_str());
        q.append("'");
        proof {
            assert(q@ =~= to_text(self.creds().log_to->0, self.fmt()));
        }
        self.push_fragment(q)
    }

    /// Appends the `--batch` flag.
    pub fn add_batch(self, number: u16) -> (r: Self)
        ensures
            r.fragments() == self.fragments().push(batch_text(number as nat)),
            r.fmt() == self.fmt(),
            r.creds() == self.creds(),
    {
        let mut q = "--batch=".to_owned();
        let d = u32_dec(number as u32);
        q.append(d.as_str());
        proof {
            assert(q@ =~= batch_text(number as nat));
        }
        self.push_fragment(q)
    }

    /// Appends the `--limit` flag; accepts the full `u32` range.
    pub fn add_limit(self, number: u32) -> (r: Self)
        ensures
            r.fragments() == self.fragments().push(limit_text(number as nat)),
            r.fmt() == self.fmt(),
            r.creds() == self.creds(),
    {
        let mut q = "--limit ".to_owned();
        let d = u32_dec(number);
        q.append(d.as_str());
        proof {
            assert(q@ =~= limit_text(number as nat));
        }
        self.push_fragment(q)
    }

    /// Appends the `--forward` flag.
    pub fn add_forward(self) -> (r: Self)
        ensures
            r.fragments() == self.fragments().push(forward_text()),
            r.fmt() == self.fmt(),
            r.creds() == self.creds(),
    {
        let q = "--forward".to_owned();
        self.push_fragment(q)
    }

    /// Appends the raw output flag.
    pub fn add_raw(self) -> (r: Self)
        ensures
            r.fragments() == self.fragments().push(raw_text()),
            r.fmt() == self.fmt(),
            r.creds() == self.creds(),
    {
        let q = "-o raw".to_owned();
        self.push_fragment(q)
    }

    /// The invocation prefix alone.
    pub fn script_head(&self) -> (r: String)
        ensures
            r@ == head_text(self.creds()),
    {
        build_head(self.loki_creds)
    }

    /// Consumes the builder and emits the full command line: the invocation
    /// prefix first, then every fragment in the order added, joined by
    /// single spaces.
    pub fn get_query(self) -> (r: String)
        ensures
            r@ == query_text(self.creds(), self.fragments()),
    {
        proof {
            reveal_strlit(" ");
        }
        let mut res = build_head(self.loki_creds);
        let ghost head = head_text(self.creds());
        let ghost dv = self.query.deep_view();
        let n = self.query.len();
        proof {
            assert(seq![head] + dv.take(0) =~= seq![head]);
        }
        let mut i: usize = 0;
        while i < n
            invariant
                i <= n,
                n == self.query.len(),
                dv == self.query.deep_view(),
                head == head_text(self.creds()),
                res@ == joined_text(seq![head] + dv.take(i as int)),
            decreases n - i,
        {
            res.append(" ");
            res.append(self.query[i].as_str());
            proof {
                reveal_strlit(" ");
                lemma_joined_push(seq![head] + dv.take(i as int), dv[i as int]);
                assert((seq![head] + dv.take(i as int)).push(dv[i as int]) =~= seq![head] + dv.take(
                    i as int + 1,
                ));
            }
            i += 1;
        }
        proof {
            assert(seq![head] + dv.take(n as int) =~= seq![head] + dv);
        }
        res
    }

    fn push_fragment(self, frag: String) -> (r: Self)
        ensures
            r.fragments() == self.fragments().push(frag@),
            r.fmt() == self.fmt(),
            r.creds() == self.creds(),
    {
        let mut b = self;
        b.query.push(frag);
        proof {
            assert(b.fragments() =~= self.fragments().push(frag@));
        }
        b
    }
}

/// Builder law: whatever fragments were added, and in whatever order, the
/// built command line starts with the invocation prefix.
pub proof fn lemma_head_always_first(c: LokiConfig, frags: Seq<Seq<char>>)
    ensures
        head_text(c).is_prefix_of(query_text(c, frags)),
{
    let whole = seq![head_text(c)] + frags;
    if frags.len() == 0 {
        assert(whole =~= seq![head_text(c)]);
        assert(query_text(c, frags) == head_text(c));
        assert(head_text(c) =~= query_text(c, frags).subrange(0, head_text(c).len() as int));
    } else {
        assert(whole[0] == head_text(c));
        assert(whole.len() >= 2);
        assert(query_text(c, frags) == head_text(c) + seq![' '] + joined_text(whole.drop_first()));
        assert(head_text(c) =~= query_text(c, frags).subrange(0, head_text(c).len() as int));
    }
}

/// The invocation prefix for the given credentials.
pub fn build_head(creds: &LokiConfig) -> (r: String)
    ensures
        r@ == head_text(*creds),
{
    let mut s = "/opt/logcli --username=\"".to_owned();
    s.append(creds.login.as_str());
    s.append("\" --password=\"");
    s.append(creds.password.as_str());
    s.append("\" --addr=\"");
    let addr = creds.full_address();
    s.append(addr.as_str());
    s.append("\" --org-id=\"");
    let org = creds.org_id();
    s.append(org.as_str());
    s.append("\" -q");
    proof {
        assert(s@ =~= head_text(*creds));
    }
    s
}

} // verus!
