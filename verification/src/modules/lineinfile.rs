//! The line-in-file module: a line must be present at a position in a
//! file, or absent from it.
//!
//! The dry run reads the file's line count (`wc -l`) and the line's
//! current occurrences (`grep -n`); the decision table turns those
//! texts into planned additions or deletions. Parsing of both texts is
//! verified character by character.

use vstd::prelude::*;
use crate::connection::Cmd;
use crate::connection::CmdResult;
use crate::connection::CmdV;
use crate::connection::Privilege;
use crate::connection::PrivilegeV;
use crate::connection::cmd_views;
use crate::error::Error;
use crate::modules::ModuleApiCall;
use crate::modules::ModuleApiCallV;
use crate::modules::call_views;
use crate::modules::collapsed;
use crate::modules::decides_agree;
use crate::modules::followups_agree;
use crate::step::ApiCallResult;
use crate::step::ApiCallStatus;
use crate::step::ApiCallStatusV;
use crate::step::StepChange;
use crate::step::StepChangeV;
use crate::strutil::chars_of;
use crate::strutil::clone_opt_str;
use crate::strutil::concat2;
use crate::strutil::concat3;
use crate::strutil::concat5;
use crate::strutil::dec_str;
use crate::strutil::find_char;
use crate::strutil::find_char_range;
use crate::strutil::lemma_find_char_bounds;
use crate::strutil::opt_str_v;
use crate::strutil::parse_u32_range;
use crate::strutil::parse_u32_trimmed;
use crate::strutil::scrubbed;
use crate::strutil::spec_parse_u32;
use crate::strutil::str_eq;
use crate::strutil::trimmed;
use crate::strutil::u64_to_dec;

verus! {

/// The expected file state: `line` must be `present` (optionally at a
/// `position`: `top`, `bottom`, `anywhere` or a line number) or
/// `absent` in the file at `filepath`.
#[derive(Debug)]
pub struct LineInFileBlockExpectedState {
    pub filepath: String,
    pub line: Option<String>,
    pub state: Option<String>,
    pub position: Option<String>,
}

/// Spec mirror of [`LineInFileBlockExpectedState`].
pub struct LineInFileBlockV {
    pub filepath: Seq<char>,
    pub line: Option<Seq<char>>,
    pub state: Option<Seq<char>>,
    pub position: Option<Seq<char>>,
}

impl View for LineInFileBlockExpectedState {
    type V = LineInFileBlockV;

    open spec fn view(&self) -> LineInFileBlockV {
        LineInFileBlockV {
            filepath: self.filepath@,
            line: opt_str_v(self.line),
            state: opt_str_v(self.state),
            position: opt_str_v(self.position),
        }
    }
}

impl Clone for LineInFileBlockExpectedState {
    /// The copy declares the same expected state.
    fn clone(&self) -> (r: LineInFileBlockExpectedState)
        ensures
            r@ == self@,
    {
        LineInFileBlockExpectedState {
            filepath: self.filepath.clone(),
            line: clone_opt_str(&self.line),
            state: clone_opt_str(&self.state),
            position: clone_opt_str(&self.position),
        }
    }
}

/// The number carried by one `grep -n` output line: its text before the
/// first colon, read as a decimal.
pub open spec fn seg_num(seg: Seq<char>) -> Option<u32> {
    spec_parse_u32(seg.take(find_char(seg, ':')))
}

/// The line numbers carried by a whole `grep -n` output: one per
/// newline-separated segment, or nothing when any segment is unreadable.
pub open spec fn grep_nums(s: Seq<char>) -> Option<Seq<u32>>
    decreases s.len(),
    via grep_nums_dec
{
    if s.len() == 0 {
        Some(Seq::empty())
    } else {
        let i = find_char(s, '\n');
        let seg = s.take(i);
        let rest = if i < s.len() {
            s.skip(i + 1)
        } else {
            Seq::<char>::empty()
        };
        match seg_num(seg) {
            None => None,
            Some(n) => match grep_nums(rest) {
                None => None,
                Some(ns) => Some(seq![n] + ns),
            },
        }
    }
}

#[via_fn]
proof fn grep_nums_dec(s: Seq<char>) {
    lemma_find_char_bounds(s, '\n');
}

fn parse_grep_rec(cs: &[char], start: usize) -> (r: Option<Vec<u32>>)
    requires
        start <= cs@.len(),
    ensures
        match r {
            Some(v) => grep_nums(cs@.skip(start as int)) == Some(v@),
            None => grep_nums(cs@.skip(start as int)) is None,
        },
    decreases cs@.len() - start,
{
    let ghost s = cs@.skip(start as int);
    let n = cs.len();
    if start == n {
        let v: Vec<u32> = Vec::new();
        proof {
            assert(s =~= Seq::<char>::empty());
            assert(v@ =~= Seq::<u32>::empty());
        }
        return Some(v);
    }
    let nl = find_char_range(cs, start, n, '\n');
    let colon = find_char_range(cs, start, nl, ':');
    proof {
        assert(s =~= cs@.subrange(start as int, n as int));
        assert(s.take(nl - start) =~= cs@.subrange(start as int, nl as int));
        assert(s.take(nl - start).take(colon - start) =~= cs@.subrange(
            start as int,
            colon as int,
        ));
        lemma_find_char_bounds(s, '\n');
        assert(find_char(s, '\n') == nl - start);
        assert(find_char(cs@.subrange(start as int, nl as int), ':') == colon - start);
    }
    let head = parse_u32_range(cs, start, colon);
    match head {
        None => {
            proof {
                assert(seg_num(s.take(nl - start)) is None);
            }
            None
        },
        Some(v0) => {
            let next: usize = if nl < n {
                nl + 1
            } else {
                n
            };
            proof {
                if nl < n {
                    assert(s.skip(nl - start + 1) =~= cs@.skip(next as int));
                } else {
                    assert(cs@.skip(next as int) =~= Seq::<char>::empty());
                }
            }
            match parse_grep_rec(cs, next) {
                None => None,
                Some(mut rest) => {
                    let mut out: Vec<u32> = Vec::new();
                    out.push(v0);
                    out.append(&mut rest);
                    proof {
                        assert(out@ =~= seq![v0] + grep_nums(cs@.skip(next as int)).unwrap());
                    }
                    Some(out)
                },
            }
        },
    }
}

/// Reads a whole `grep -n` output into its line numbers.
pub fn parse_grep_output(s: &str) -> (r: Option<Vec<u32>>)
    ensures
        match r {
            Some(v) => grep_nums(s@) == Some(v@),
            None => grep_nums(s@) is None,
        },
{
    let cs = chars_of(s);
    let r = parse_grep_rec(cs.as_slice(), 0);
    proof {
        assert(cs@.skip(0) =~= s@);
    }
    r
}

/// Where the declared `position` puts the line in a file of `filelen`
/// lines: the expected line number (`None` for *anywhere*) and whether
/// the position is *bottom*. A number outside [1, file length], or an
/// unreadable one, is a demotable error.
pub open spec fn spec_position(pos: Option<Seq<char>>, filelen: u32) -> Result<
    (Option<u32>, bool),
    Seq<char>,
> {
    match pos {
        None => Ok((None::<u32>, false)),
        Some(p) => if p == "top"@ {
            Ok((Some(1u32), false))
        } else if p == "bottom"@ {
            Ok((Some(filelen), true))
        } else if p == "anywhere"@ {
            Ok((None::<u32>, false))
        } else {
            match spec_parse_u32(p) {
                Some(linenumber) => if 1 <= linenumber && linenumber <= filelen {
                    Ok((Some(linenumber), false))
                } else {
                    Err("Position value out of range (use \"bottom\" instead)"@)
                },
                None => Err("Failed to parse position value"@),
            }
        },
    }
}

fn resolve_position(pos: &Option<String>, filelen: u32) -> (r: Result<(Option<u32>, bool), Error>)
    ensures
        match (r, spec_position(opt_str_v(*pos), filelen)) {
            (Ok(v), Ok(sv)) => v == sv,
            (Err(e), Err(m)) => e matches Error::FailedDryRunEvaluation(em) && em@ == m,
            _ => false,
        },
{
    match pos {
        None => Ok((None, false)),
        Some(p) => {
            if str_eq(p.as_str(), "top") {
                Ok((Some(1), false))
            } else if str_eq(p.as_str(), "bottom") {
                Ok((Some(filelen), true))
            } else if str_eq(p.as_str(), "anywhere") {
                Ok((None, false))
            } else {
                let cs = chars_of(p.as_str());
                let len = cs.len();
                let parsed = parse_u32_range(cs.as_slice(), 0, len);
                proof {
                    assert(cs@.subrange(0, len as int) =~= p@);
                }
                match parsed {
                    Some(linenumber) => {
                        if 1 <= linenumber && linenumber <= filelen {
                            Ok((Some(linenumber), false))
                        } else {
                            Err(
                                Error::FailedDryRunEvaluation(
                                    "Position value out of range (use \"bottom\" instead)"
                                        .to_owned(),
                                ),
                            )
                        }
                    },
                    None => Err(
                        Error::FailedDryRunEvaluation("Failed to parse position value".to_owned()),
                    ),
                }
            }
        },
    }
}

impl LineInFileBlockExpectedState {
    /// The declared state asks for work on the file.
    pub open spec fn needs_file(b: LineInFileBlockV) -> bool {
        match b.state {
            Some(s) => s == "present"@ || s == "absent"@,
            None => false,
        }
    }

    /// The tool probes — `sed`, `grep`, `wc`, `cat` and `test` must all
    /// be on the target — and the file existence check, the latter
    /// under the step's privilege.
    pub open spec fn spec_probe_cmds(b: LineInFileBlockV, privilege: PrivilegeV) -> Seq<CmdV> {
        seq![
            CmdV { content: "command -v sed"@, privilege: PrivilegeV::Usual },
            CmdV { content: "command -v grep"@, privilege: PrivilegeV::Usual },
            CmdV { content: "command -v wc"@, privilege: PrivilegeV::Usual },
            CmdV { content: "command -v cat"@, privilege: PrivilegeV::Usual },
            CmdV { content: "command -v test"@, privilege: PrivilegeV::Usual },
            CmdV { content: "test -f "@ + b.filepath, privilege },
        ]
    }

    pub fn probe_cmds(&self, privilege: &Privilege) -> (r: Vec<Cmd>)
        ensures
            cmd_views(r@) == Self::spec_probe_cmds(self@, privilege@),
    {
        let mut v: Vec<Cmd> = Vec::new();
        v.push(Cmd::from("command -v sed".to_owned(), Privilege::Usual));
        v.push(Cmd::from("command -v grep".to_owned(), Privilege::Usual));
        v.push(Cmd::from("command -v wc".to_owned(), Privilege::Usual));
        v.push(Cmd::from("command -v cat".to_owned(), Privilege::Usual));
        v.push(Cmd::from("command -v test".to_owned(), Privilege::Usual));
        v.push(Cmd::from(concat2("test -f ", self.filepath.as_str()), privilege.clone()));
        proof {
            assert(cmd_views(v@) =~= Self::spec_probe_cmds(self@, privilege@));
        }
        v
    }

    /// With every tool and the file present, the read-only checks are
    /// the file's line count (only when the line must be present) and
    /// the line's occurrences; a missing tool, a missing file, or a
    /// state declared with no line are demotable errors.
    pub open spec fn spec_followup_cmds(
        b: LineInFileBlockV,
        probes: Seq<CmdResult>,
        privilege: PrivilegeV,
    ) -> Result<Seq<CmdV>, Seq<char>> {
        if probes[0].exit_code != 0 {
            Err("sed command not available on this host"@)
        } else if probes[1].exit_code != 0 {
            Err("grep command not available on this host"@)
        } else if probes[2].exit_code != 0 {
            Err("wc command not available on this host"@)
        } else if probes[3].exit_code != 0 {
            Err("cat command not available on this host"@)
        } else if probes[4].exit_code != 0 {
            Err("test command not available on this host"@)
        } else if probes[5].exit_code != 0 {
            Err(b.filepath + " not found or not a regular file"@)
        } else if Self::needs_file(b) {
            match b.line {
                Some(line) => if b.state == Some("present"@) {
                    Ok(
                        seq![
                            CmdV { content: "cat "@ + b.filepath + " | wc -l"@, privilege },
                            CmdV {
                                content: "grep -n -F -w '"@ + line + "' "@ + b.filepath,
                                privilege,
                            },
                        ],
                    )
                } else {
                    Ok(
                        seq![
                            CmdV {
                                content: "grep -n -F -w '"@ + line + "' "@ + b.filepath,
                                privilege,
                            },
                        ],
                    )
                },
                None => Err("No line provided to the lineinfile module"@),
            }
        } else {
            Ok(Seq::empty())
        }
    }

    pub fn followup_cmds(&self, privilege: &Privilege, probes: &Vec<CmdResult>) -> (r: Result<
        Vec<Cmd>,
        Error,
    >)
        requires
            probes@.len() == 6,
        ensures
            followups_agree(r, Self::spec_followup_cmds(self@, probes@, privilege@)),
    {
        if probes[0].exit_code != 0 {
            return Err(
                Error::FailedDryRunEvaluation("sed command not available on this host".to_owned()),
            );
        }
        if probes[1].exit_code != 0 {
            return Err(
                Error::FailedDryRunEvaluation(
                    "grep command not available on this host".to_owned(),
                ),
            );
        }
        if probes[2].exit_code != 0 {
            return Err(
                Error::FailedDryRunEvaluation("wc command not available on this host".to_owned()),
            );
        }
        if probes[3].exit_code != 0 {
            return Err(
                Error::FailedDryRunEvaluation("cat command not available on this host".to_owned()),
            );
        }
        if probes[4].exit_code != 0 {
            return Err(
                Error::FailedDryRunEvaluation(
                    "test command not available on this host".to_owned(),
                ),
            );
        }
        if probes[5].exit_code != 0 {
            return Err(
                Error::FailedDryRunEvaluation(
                    concat2(self.filepath.as_str(), " not found or not a regular file"),
                ),
            );
        }
        let present = match &self.state {
            Some(s) => str_eq(s.as_str(), "present"),
            None => false,
        };
        let absent = match &self.state {
            Some(s) => str_eq(s.as_str(), "absent"),
            None => false,
        };
        if present || absent {
            match &self.line {
                Some(line) => {
                    let grep_cmd = crate::strutil::concat4(
                        "grep -n -F -w '",
                        line.as_str(),
                        "' ",
                        self.filepath.as_str(),
                    );
                    let mut v: Vec<Cmd> = Vec::new();
                    if present {
                        v.push(
                            Cmd::from(
                                concat3("cat ", self.filepath.as_str(), " | wc -l"),
                                privilege.clone(),
                            ),
                        );
                    }
                    v.push(Cmd::from(grep_cmd, privilege.clone()));
                    proof {
                        assert(cmd_views(v@) =~= Self::spec_followup_cmds(
                            self@,
                            probes@,
                            privilege@,
                        )->Ok_0);
                    }
                    Ok(v)
                },
                None => Err(
                    Error::FailedDryRunEvaluation(
                        "No line provided to the lineinfile module".to_owned(),
                    ),
                ),
            }
        } else {
            let v: Vec<Cmd> = Vec::new();
            proof {
                assert(cmd_views(v@) =~= Seq::<CmdV>::empty());
            }
            Ok(v)
        }
    }

    /// The planned addition, at the resolved position (appending for
    /// *bottom* and *anywhere*).
    pub open spec fn spec_add_call(
        b: LineInFileBlockV,
        privilege: PrivilegeV,
        expected: Option<u32>,
        bottom: bool,
    ) -> ModuleApiCallV {
        ModuleApiCallV::LineInFile(
            LineInFileApiCallV {
                path: b.filepath,
                line: b.line.unwrap(),
                line_numbers: None,
                position: if bottom {
                    None
                } else {
                    expected
                },
                action: "add"@,
                privilege,
            },
        )
    }

    /// The full decision table for the line-in-file dry run.
    pub open spec fn spec_decide(
        b: LineInFileBlockV,
        privilege: PrivilegeV,
        followups: Seq<CmdResult>,
    ) -> Result<StepChangeV, Seq<char>> {
        let msg = "Line already in expected state"@;
        match b.state {
            None => Ok(collapsed(Seq::empty(), msg)),
            Some(st) => if st == "present"@ {
                match spec_parse_u32(trimmed(followups[0].stdout@)) {
                    None => Err("Failed to read the file's line count"@),
                    Some(filelen) => match spec_position(b.position, filelen) {
                        Err(m) => Err(m),
                        Ok((expected, bottom)) => if followups[1].exit_code == 0 {
                            match grep_nums(followups[1].stdout@) {
                                None => Err("Failed to read the matched line numbers"@),
                                Some(nums) => match expected {
                                    Some(n) => if nums.contains(n) {
                                        Ok(
                                            collapsed(
                                                seq![
                                                    ModuleApiCallV::NoOp(
                                                        "Line already present at expected place"@,
                                                    ),
                                                ],
                                                msg,
                                            ),
                                        )
                                    } else {
                                        Ok(
                                            collapsed(
                                                seq![
                                                    Self::spec_add_call(
                                                        b,
                                                        privilege,
                                                        expected,
                                                        bottom,
                                                    ),
                                                ],
                                                msg,
                                            ),
                                        )
                                    },
                                    None => Ok(
                                        collapsed(
                                            seq![ModuleApiCallV::NoOp("Line already present"@)],
                                            msg,
                                        ),
                                    ),
                                },
                            }
                        } else if followups[1].exit_code == 1 {
                            Ok(
                                collapsed(
                                    seq![Self::spec_add_call(b, privilege, expected, bottom)],
                                    msg,
                                ),
                            )
                        } else {
                            Err("Failed to read the line's occurrences"@)
                        },
                    },
                }
            } else if st == "absent"@ {
                if followups[0].exit_code == 0 {
                    match grep_nums(followups[0].stdout@) {
                        None => Err("Failed to read the matched line numbers"@),
                        Some(nums) => Ok(
                            collapsed(
                                seq![
                                    ModuleApiCallV::LineInFile(
                                        LineInFileApiCallV {
                                            path: b.filepath,
                                            line: b.line.unwrap(),
                                            line_numbers: Some(nums),
                                            position: None,
                                            action: "del"@,
                                            privilege,
                                        },
                                    ),
                                ],
                                msg,
                            ),
                        ),
                    }
                } else if followups[0].exit_code == 1 {
                    Ok(collapsed(seq![ModuleApiCallV::NoOp("Line already absent"@)], msg))
                } else {
                    Err("Failed to read the line's occurrences"@)
                }
            } else {
                Ok(collapsed(seq![ModuleApiCallV::NoOp("Wrong state value"@)], msg))
            },
        }
    }

    pub fn decide(&self, privilege: &Privilege, followups: &Vec<CmdResult>) -> (r: Result<
        StepChange,
        Error,
    >)
        requires
            Self::needs_file(self@) ==> self@.line is Some,
            self@.state == Some("present"@) ==> followups@.len() == 2,
            self@.state == Some("absent"@) ==> followups@.len() >= 1,
        ensures
            decides_agree(r, Self::spec_decide(self@, privilege@, followups@)),
    {
        let matched_msg = "Line already in expected state";
        match &self.state {
            None => {
                let calls: Vec<ModuleApiCall> = Vec::new();
                proof {
                    assert(call_views(calls@) =~= Seq::<ModuleApiCallV>::empty());
                }
                Ok(StepChange::from_calls(calls, matched_msg))
            },
            Some(st) => {
                if str_eq(st.as_str(), "present") {
                    let filelen = match parse_u32_trimmed(followups[0].stdout.as_str()) {
                        Some(filelen) => filelen,
                        None => {
                            return Err(
                                Error::FailedDryRunEvaluation(
                                    "Failed to read the file's line count".to_owned(),
                                ),
                            );
                        },
                    };
                    let (expected, bottom) = match resolve_position(&self.position, filelen) {
                        Ok(v) => v,
                        Err(e) => {
                            return Err(e);
                        },
                    };
                    if followups[1].exit_code == 0 {
                        let nums = match parse_grep_output(followups[1].stdout.as_str()) {
                            Some(nums) => nums,
                            None => {
                                return Err(
                                    Error::FailedDryRunEvaluation(
                                        "Failed to read the matched line numbers".to_owned(),
                                    ),
                                );
                            },
                        };
                        match expected {
                            Some(n) => {
                                if contains_u32(&nums, n) {
                                    let mut calls: Vec<ModuleApiCall> = Vec::new();
                                    calls.push(
                                        ModuleApiCall::NoOp(
                                            "Line already present at expected place".to_owned(),
                                        ),
                                    );
                                    proof {
                                        assert(call_views(calls@) =~= seq![
                                            ModuleApiCallV::NoOp(
                                                "Line already present at expected place"@,
                                            ),
                                        ]);
                                    }
                                    Ok(StepChange::from_calls(calls, matched_msg))
                                } else {
                                    let mut calls: Vec<ModuleApiCall> = Vec::new();
                                    calls.push(self.add_call(privilege, Some(n), bottom));
                                    proof {
                                        assert(call_views(calls@) =~= seq![
                                            Self::spec_add_call(
                                                self@,
                                                privilege@,
                                                Some(n),
                                                bottom,
                                            ),
                                        ]);
                                    }
                                    Ok(StepChange::from_calls(calls, matched_msg))
                                }
                            },
                            None => {
                                let mut calls: Vec<ModuleApiCall> = Vec::new();
                                calls.push(
                                    ModuleApiCall::NoOp("Line already present".to_owned()),
                                );
                                proof {
                                    assert(call_views(calls@) =~= seq![
                                        ModuleApiCallV::NoOp("Line already present"@),
                                    ]);
                                }
                                Ok(StepChange::from_calls(calls, matched_msg))
                            },
                        }
                    } else if followups[1].exit_code == 1 {
                        let mut calls: Vec<ModuleApiCall> = Vec::new();
                        calls.push(self.add_call(privilege, expected, bottom));
                        proof {
                            assert(call_views(calls@) =~= seq![
                                Self::spec_add_call(self@, privilege@, expected, bottom),
                            ]);
                        }
                        Ok(StepChange::from_calls(calls, matched_msg))
                    } else {
                        Err(
                            Error::FailedDryRunEvaluation(
                                "Failed to read the line's occurrences".to_owned(),
                            ),
                        )
                    }
                } else if str_eq(st.as_str(), "absent") {
                    if followups[0].exit_code == 0 {
                        let nums = match parse_grep_output(followups[0].stdout.as_str()) {
                            Some(nums) => nums,
                            None => {
                                return Err(
                                    Error::FailedDryRunEvaluation(
                                        "Failed to read the matched line numbers".to_owned(),
                                    ),
                                );
                            },
                        };
                        let mut calls: Vec<ModuleApiCall> = Vec::new();
                        let ghost nums_v = nums@;
                        calls.push(
                            ModuleApiCall::LineInFile(
                                LineInFileApiCall {
                                    path: self.filepath.clone(),
                                    line: self.line.as_ref().unwrap().clone(),
                                    line_numbers: Some(nums),
                                    position: None,
                                    action: "del".to_owned(),
                                    privilege: privilege.clone(),
                                },
                            ),
                        );
                        proof {
                            assert(call_views(calls@) =~= seq![
                                ModuleApiCallV::LineInFile(
                                    LineInFileApiCallV {
                                        path: self@.filepath,
                                        line: self@.line.unwrap(),
                                        line_numbers: Some(nums_v),
                                        position: None,
                                        action: "del"@,
                                        privilege: privilege@,
                                    },
                                ),
                            ]);
                        }
                        Ok(StepChange::from_calls(calls, matched_msg))
                    } else if followups[0].exit_code == 1 {
                        let mut calls: Vec<ModuleApiCall> = Vec::new();
                        calls.push(ModuleApiCall::NoOp("Line already absent".to_owned()));
                        proof {
                            assert(call_views(calls@) =~= seq![
                                ModuleApiCallV::NoOp("Line already absent"@),
                            ]);
                        }
                        Ok(StepChange::from_calls(calls, matched_msg))
                    } else {
                        Err(
                            Error::FailedDryRunEvaluation(
                                "Failed to read the line's occurrences".to_owned(),
                            ),
                        )
                    }
                } else {
                    let mut calls: Vec<ModuleApiCall> = Vec::new();
                    calls.push(ModuleApiCall::NoOp("Wrong state value".to_owned()));
                    proof {
                        assert(call_views(calls@) =~= seq![
                            ModuleApiCallV::NoOp("Wrong state value"@),
                        ]);
                    }
                    Ok(StepChange::from_calls(calls, matched_msg))
                }
            },
        }
    }

    fn add_call(&self, privilege: &Privilege, expected: Option<u32>, bottom: bool) -> (r:
        ModuleApiCall)
        requires
            self@.line is Some,
        ensures
            r@ == Self::spec_add_call(self@, privilege@, expected, bottom),
    {
        ModuleApiCall::LineInFile(
            LineInFileApiCall {
                path: self.filepath.clone(),
                line: self.line.as_ref().unwrap().clone(),
                line_numbers: None,
                position: if bottom {
                    None
                } else {
                    expected
                },
                action: "add".to_owned(),
                privilege: privilege.clone(),
            },
        )
    }
}

/// Membership of a number in a vector.
fn contains_u32(v: &Vec<u32>, x: u32) -> (r: bool)
    ensures
        r == v@.contains(x),
{
    let mut i: usize = 0;
    while i < v.len()
        invariant
            i <= v@.len(),
            forall|j: int| 0 <= j < i ==> v@[j] != x,
        decreases v@.len() - i,
    {
        if v[i] == x {
            return true;
        }
        i = i + 1;
    }
    false
}

/// View of an optional vector of line numbers.
pub open spec fn opt_nums_v(o: Option<Vec<u32>>) -> Option<Seq<u32>> {
    match o {
        Some(v) => Some(v@),
        None => None,
    }
}

/// One planned file mutation: add the line at a position, or delete its
/// occurrences.
#[derive(Debug)]
pub struct LineInFileApiCall {
    pub path: String,
    pub line: String,
    pub line_numbers: Option<Vec<u32>>,
    pub position: Option<u32>,
    pub action: String,
    pub privilege: Privilege,
}

/// Spec mirror of [`LineInFileApiCall`].
pub struct LineInFileApiCallV {
    pub path: Seq<char>,
    pub line: Seq<char>,
    pub line_numbers: Option<Seq<u32>>,
    pub position: Option<u32>,
    pub action: Seq<char>,
    pub privilege: PrivilegeV,
}

impl View for LineInFileApiCall {
    type V = LineInFileApiCallV;

    open spec fn view(&self) -> LineInFileApiCallV {
        LineInFileApiCallV {
            path: self.path@,
            line: self.line@,
            line_numbers: opt_nums_v(self.line_numbers),
            position: self.position,
            action: self.action@,
            privilege: self.privilege@,
        }
    }
}

impl Clone for LineInFileApiCall {
    /// The copy plans the same mutation.
    fn clone(&self) -> (r: LineInFileApiCall)
        ensures
            r@ == self@,
    {
        let line_numbers = match &self.line_numbers {
            Some(v) => {
                let mut out: Vec<u32> = Vec::new();
                let mut i: usize = 0;
                while i < v.len()
                    invariant
                        i <= v@.len(),
                        out@ == v@.take(i as int),
                    decreases v@.len() - i,
                {
                    out.push(v[i]);
                    i = i + 1;
                    proof {
                        assert(out@ =~= v@.take(i as int));
                    }
                }
                proof {
                    assert(out@ =~= v@);
                }
                Some(out)
            },
            None => None,
        };
        LineInFileApiCall {
            path: self.path.clone(),
            line: self.line.clone(),
            line_numbers,
            position: self.position,
            action: self.action.clone(),
            privilege: self.privilege.clone(),
        }
    }
}

/// The sed expression deleting the given line numbers:
/// `1d;5d;12d` for lines 1, 5 and 12.
pub open spec fn sed_del_expr(nums: Seq<u32>) -> Seq<char>
    decreases nums.len(),
{
    if nums.len() == 0 {
        Seq::empty()
    } else if nums.len() == 1 {
        dec_str(nums.first() as nat) + "d"@
    } else {
        dec_str(nums.first() as nat) + "d;"@ + sed_del_expr(nums.drop_first())
    }
}

fn sed_del_expr_exec(nums: &[u32], start: usize) -> (r: String)
    requires
        start <= nums@.len(),
    ensures
        r@ == sed_del_expr(nums@.skip(start as int)),
    decreases nums@.len() - start,
{
    let ghost s = nums@.skip(start as int);
    if start == nums.len() {
        proof {
            assert(s =~= Seq::<u32>::empty());
        }
        String::new()
    } else {
        let head = u64_to_dec(nums[start] as u64);
        if start + 1 == nums.len() {
            proof {
                assert(s.len() == 1);
                assert(s.first() == nums@[start as int]);
            }
            concat2(head.as_str(), "d")
        } else {
            let rest = sed_del_expr_exec(nums, start + 1);
            proof {
                assert(s.drop_first() =~= nums@.skip(start as int + 1));
                assert(s.first() == nums@[start as int]);
            }
            concat3(head.as_str(), "d;", rest.as_str())
        }
    }
}

impl LineInFileApiCall {
    /// The printable line describing this call.
    pub open spec fn display_line_of(c: LineInFileApiCallV) -> Seq<char> {
        if c.action == "add"@ {
            "Line missing -> needs to be added"@
        } else if c.action == "del"@ {
            "Line present -> needs to be removed"@
        } else {
            "Wrong lineinfile action"@
        }
    }

    pub fn display(&self) -> (r: String)
        ensures
            r@ == Self::display_line_of(self@),
    {
        if str_eq(self.action.as_str(), "add") {
            "Line missing -> needs to be added".to_owned()
        } else if str_eq(self.action.as_str(), "del") {
            "Line present -> needs to be removed".to_owned()
        } else {
            "Wrong lineinfile action".to_owned()
        }
    }

    /// The preliminary commands: an addition at a line number first
    /// checks that the file is not empty (`test -s`), because `sed`
    /// cannot insert into an empty file.
    pub open spec fn spec_pre_cmds(c: LineInFileApiCallV) -> Seq<CmdV> {
        if c.action == "add"@ && c.position is Some {
            seq![CmdV { content: "test -s "@ + c.path, privilege: c.privilege }]
        } else {
            Seq::empty()
        }
    }

    pub fn pre_cmds(&self) -> (r: Vec<Cmd>)
        ensures
            cmd_views(r@) == Self::spec_pre_cmds(self@),
    {
        let mut v: Vec<Cmd> = Vec::new();
        if str_eq(self.action.as_str(), "add") && self.position.is_some() {
            v.push(Cmd::from(concat2("test -s ", self.path.as_str()), self.privilege.clone()));
        }
        proof {
            assert(cmd_views(v@) =~= Self::spec_pre_cmds(self@));
        }
        v
    }

    /// The mutation command: `sed -i '<n> i <line>'` to insert at a
    /// line number, `echo >>` to append; on an empty file only the top
    /// position can be satisfied, every other number is out of range
    /// and settles as a failure without mutating anything. A deletion
    /// is one `sed -i '<n1>d;<n2>d;…'` over all occurrences.
    pub open spec fn spec_main_cmd(c: LineInFileApiCallV, pre: Seq<CmdResult>) -> Result<
        Option<CmdV>,
        Seq<char>,
    > {
        if c.action == "add"@ {
            match c.position {
                Some(linenumber) => if pre[0].exit_code == 0 {
                    Ok(
                        Some(
                            CmdV {
                                content: "sed -i '"@ + dec_str(linenumber as nat) + " i "@
                                    + c.line + "' "@ + c.path,
                                privilege: c.privilege,
                            },
                        ),
                    )
                } else if linenumber == 1 {
                    Ok(
                        Some(
                            CmdV {
                                content: "echo '"@ + c.line + "' >> "@ + c.path,
                                privilege: c.privilege,
                            },
                        ),
                    )
                } else {
                    Err("Position value out of range (use \"bottom\" instead)"@)
                },
                None => Ok(
                    Some(
                        CmdV {
                            content: "echo '"@ + c.line + "' >> "@ + c.path,
                            privilege: c.privilege,
                        },
                    ),
                ),
            }
        } else if c.action == "del"@ {
            match c.line_numbers {
                Some(nums) => if nums.len() > 0 {
                    Ok(
                        Some(
                            CmdV {
                                content: "sed -i '"@ + sed_del_expr(nums) + "' "@ + c.path,
                                privilege: c.privilege,
                            },
                        ),
                    )
                } else {
                    Ok(None)
                },
                None => Ok(None),
            }
        } else {
            Ok(None)
        }
    }

    pub fn main_cmd(&self, pre: &Vec<CmdResult>) -> (r: Result<Option<Cmd>, ApiCallResult>)
        requires
            self@.action == "add"@ && self@.position is Some ==> pre@.len() == 1,
        ensures
            match (r, Self::spec_main_cmd(self@, pre@)) {
                (Ok(Some(cmd)), Ok(Some(sv))) => cmd@ == sv,
                (Ok(None), Ok(None)) => true,
                (Err(res), Err(m)) => res@.status == ApiCallStatusV::Failure(m) && res.rc
                    == Some(pre@[0].exit_code) && res@.output == Some(scrubbed(pre@[0].stdout@)),
                _ => false,
            },
    {
        if str_eq(self.action.as_str(), "add") {
            match self.position {
                Some(linenumber) => {
                    if pre[0].exit_code == 0 {
                        let n = u64_to_dec(linenumber as u64);
                        let head = concat5(
                            "sed -i '",
                            n.as_str(),
                            " i ",
                            self.line.as_str(),
                            "' ",
                        );
                        Ok(
                            Some(
                                Cmd::from(
                                    concat2(head.as_str(), self.path.as_str()),
                                    self.privilege.clone(),
                                ),
                            ),
                        )
                    } else if linenumber == 1 {
                        Ok(Some(self.echo_cmd()))
                    } else {
                        Err(
                            ApiCallResult::from(
                                Some(pre[0].exit_code),
                                Some(pre[0].stdout.clone()),
                                ApiCallStatus::Failure(
                                    "Position value out of range (use \"bottom\" instead)"
                                        .to_owned(),
                                ),
                            ),
                        )
                    }
                },
                None => Ok(Some(self.echo_cmd())),
            }
        } else if str_eq(self.action.as_str(), "del") {
            match &self.line_numbers {
                Some(nums) => {
                    if nums.len() > 0 {
                        let expr = sed_del_expr_exec(nums.as_slice(), 0);
                        proof {
                            assert(nums@.skip(0) =~= nums@);
                        }
                        let head = concat3("sed -i '", expr.as_str(), "' ");
                        Ok(
                            Some(
                                Cmd::from(
                                    concat2(head.as_str(), self.path.as_str()),
                                    self.privilege.clone(),
                                ),
                            ),
                        )
                    } else {
                        Ok(None)
                    }
                },
                None => Ok(None),
            }
        } else {
            Ok(None)
        }
    }

    fn echo_cmd(&self) -> (r: Cmd)
        ensures
            r@ == (CmdV {
                content: "echo '"@ + self.line@ + "' >> "@ + self.path@,
                privilege: self.privilege@,
            }),
    {
        let head = concat3("echo '", self.line.as_str(), "' >> ");
        Cmd::from(concat2(head.as_str(), self.path.as_str()), self.privilege.clone())
    }

    /// The status the mutation's exit code translates to.
    pub open spec fn spec_result_status(c: LineInFileApiCallV, exit_code: int) -> ApiCallStatusV {
        if c.action == "del"@ {
            if exit_code == 0 {
                ApiCallStatusV::ChangeSuccessful("Line removed"@)
            } else {
                ApiCallStatusV::Failure("Failed to remove line"@)
            }
        } else {
            if exit_code == 0 {
                ApiCallStatusV::ChangeSuccessful("Line added"@)
            } else {
                ApiCallStatusV::Failure("Failed to add line"@)
            }
        }
    }

    pub fn result(&self, main: &CmdResult) -> (r: ApiCallResult)
        ensures
            r.rc == Some(main.exit_code),
            r@.output == Some(scrubbed(main.stdout@)),
            r@.status == Self::spec_result_status(self@, main.exit_code as int),
    {
        let status: ApiCallStatus = if str_eq(self.action.as_str(), "del") {
            if main.exit_code == 0 {
                ApiCallStatus::ChangeSuccessful("Line removed".to_owned())
            } else {
                ApiCallStatus::Failure("Failed to remove line".to_owned())
            }
        } else {
            if main.exit_code == 0 {
                ApiCallStatus::ChangeSuccessful("Line added".to_owned())
            } else {
                ApiCallStatus::Failure("Failed to add line".to_owned())
            }
        };
        ApiCallResult::from(Some(main.exit_code), Some(main.stdout.clone()), status)
    }
}

} // verus!
