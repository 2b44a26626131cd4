//! The computable halves of remote command execution: composing the command
//! string sent over the interactive channel, and turning the captured byte
//! stream into the ordered sequence of non-empty output lines.

use vstd::prelude::*;
use vstd::string::*;

verus! {

/// The command actually sent: the caller's command, behind an optional
/// `cd <dir>;` prefix, behind an optional inlined environment-assignment
/// prefix.
pub open spec fn composed_command_text(
    cmd: Seq<char>,
    envs: Seq<char>,
    wd: Option<Seq<char>>,
) -> Seq<char> {
    let with_dir = match wd {
        Some(d) => "cd "@ + d + "; "@ + cmd,
        None => cmd,
    };
    if envs.len() > 0 {
        envs + "; "@ + with_dir
    } else {
        with_dir
    }
}

/// Builds the command string for the remote shell: environment assignments
/// are inlined as a `KEY=VAL; ...;` prefix, never passed through a native
/// environment-setting call.
pub fn compose_command(command: &str, envs: &str, working_directory: Option<&str>) -> (r: String)
    ensures
        r@ == composed_command_text(command@, envs@, working_directory.deep_view()),
{
    let with_dir: String = match working_directory {
        Some(dir) => {
            let mut s = "cd ".to_owned();
            s.append(dir);
            s.append("; ");
            s.append(command);
            s
        },
        None => command.to_owned(),
    };
    if !envs.is_empty() {
        let mut s = envs.to_owned();
        s.append("; ");
        s.append(with_dir.as_str());
        proof {
            assert(s@ =~= composed_command_text(
                command@,
                envs@,
                working_directory.deep_view(),
            ));
        }
        s
    } else {
        proof {
            assert(with_dir@ =~= composed_command_text(
                command@,
                envs@,
                working_directory.deep_view(),
            ));
        }
        with_dir
    }
}

/// The maximal newline-free segments of `cur + b`, empty segments dropped;
/// `cur` is the segment under construction when the first byte of `b` is
/// read.
pub open spec fn split_segments(b: Seq<u8>, cur: Seq<u8>) -> Seq<Seq<u8>>
    decreases b.len(),
{
    if b.len() == 0 {
        if cur.len() == 0 {
            seq![]
        } else {
            seq![cur]
        }
    } else if b[0] == 10 {
        if cur.len() == 0 {
            split_segments(b.drop_first(), Seq::empty())
        } else {
            seq![cur] + split_segments(b.drop_first(), Seq::empty())
        }
    } else {
        split_segments(b.drop_first(), cur.push(b[0]))
    }
}

/// The non-empty byte segments of `b` between newline bytes, in order.
pub open spec fn output_lines(b: Seq<u8>) -> Seq<Seq<u8>> {
    split_segments(b, Seq::empty())
}

/// What `String::from_utf8_lossy` returns for the given bytes; a function of
/// the bytes alone.
pub uninterp spec fn lossy_text(b: Seq<u8>) -> Seq<char>;

/// Relies on std's `String::from_utf8_lossy`: decodes the bytes as UTF-8,
/// replacing invalid sequences with the replacement character; the result is
/// deterministic in the bytes.
#[verifier::external_body]
fn lossy_decode(b: &[u8]) -> (r: String)
    ensures
        r@ == lossy_text(b@),
{
    String::from_utf8_lossy(b).into_owned()
}

/// The captured output decoded line by line: each non-empty byte segment
/// between newlines, decoded as lossy UTF-8.
pub open spec fn decoded_lines(b: Seq<u8>) -> Seq<Seq<char>> {
    output_lines(b).map_values(|seg: Seq<u8>| lossy_text(seg))
}

/// Splits the captured byte stream on newlines, drops empty lines, and
/// decodes each remaining line as UTF-8 with lossy replacement.
pub fn split_output(raw: &[u8]) -> (r: Vec<String>)
    ensures
        r.deep_view() == decoded_lines(raw@),
{
    let ghost full: Seq<u8> = raw@;
    let mut res: Vec<String> = Vec::new();
    let mut cur: Vec<u8> = Vec::new();
    let ghost mut segs: Seq<Seq<u8>> = Seq::empty();
    let n = raw.len();
    proof {
        assert(full.skip(0) =~= full);
        assert(segs + split_segments(full.skip(0), cur@) =~= output_lines(full));
    }
    let mut i: usize = 0;
    while i < n
        invariant
            i <= n,
            n == full.len(),
            full == raw@,
            res.deep_view().len() == segs.len(),
            forall|k: int| 0 <= k < segs.len() ==> res.deep_view()[k] == lossy_text(segs[k]),
            output_lines(full) == segs + split_segments(full.skip(i as int), cur@),
        decreases n - i,
    {
        let x = raw[i];
        proof {
            assert(full.skip(i as int).drop_first() =~= full.skip(i as int + 1));
        }
        if x == 10 {
            if cur.len() > 0 {
                let line = lossy_decode(cur.as_slice());
                let ghost prev_segs = segs;
                let ghost prev_cur = cur@;
                let ghost prev_dv = res.deep_view();
                res.push(line);
                cur.clear();
                proof {
                    segs = prev_segs.push(prev_cur);
                    assert(res.deep_view() =~= prev_dv.push(lossy_text(prev_cur)));
                    assert(split_segments(full.skip(i as int), prev_cur) == seq![prev_cur]
                        + split_segments(full.skip(i as int + 1), cur@));
                    assert(prev_segs + (seq![prev_cur] + split_segments(
                        full.skip(i as int + 1),
                        cur@,
                    )) =~= segs + split_segments(full.skip(i as int + 1), cur@));
                }
            } else {
                proof {
                    assert(cur@ =~= Seq::<u8>::empty());
                    assert(split_segments(full.skip(i as int), cur@) == split_segments(
                        full.skip(i as int + 1),
                        cur@,
                    ));
                }
            }
        } else {
            let ghost prev_cur = cur@;
            cur.push(x);
            proof {
                assert(split_segments(full.skip(i as int), prev_cur) == split_segments(
                    full.skip(i as int + 1),
                    cur@,
                ));
            }
        }
        i += 1;
    }
    if cur.len() > 0 {
        let line = lossy_decode(cur.as_slice());
        let ghost prev_segs = segs;
        let ghost prev_dv = res.deep_view();
        res.push(line);
        proof {
            segs = prev_segs.push(cur@);
            assert(res.deep_view() =~= prev_dv.push(lossy_text(cur@)));
            assert(full.skip(n as int) =~= Seq::empty());
            assert(output_lines(full) =~= segs);
        }
    } else {
        proof {
            assert(full.skip(n as int) =~= Seq::empty());
            assert(output_lines(full) =~= segs);
        }
    }
    proof {
        assert(res.deep_view() =~= decoded_lines(full));
    }
    res
}

} // verus!
