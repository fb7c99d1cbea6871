//! One named command of the project configuration: a shell command
//! template whose placeholders `%0` through `%9` stand for the
//! positional arguments the user supplies. Substitution fails, and
//! the command is refused, when a placeholder asks for an argument
//! that was not provided.
use vstd::prelude::*;
use vstd::string::StrSliceExecFns;
use vstd::string::StringExecFns;

verus! {

/// The views of a list of strings.
pub open spec fn strs_view(v: Seq<String>) -> Seq<Seq<char>> {
    v.map(|i: int, s: String| s@)
}

/// Whether a character is one of the decimal digits that may follow
/// a `%` in a template.
pub open spec fn is_digit(c: char) -> bool {
    48 <= c as u32 <= 57
}

/// The index named by a placeholder digit.
pub open spec fn digit_index(c: char) -> int {
    c as u32 - 48
}

/// The result of substituting the positional arguments into a
/// template: each `%d` (a percent sign followed by a decimal digit)
/// becomes the argument at that position, every other character is
/// kept, and the whole substitution fails when some placeholder's
/// position has no argument.
pub open spec fn subst_spec(t: Seq<char>, args: Seq<Seq<char>>) -> Option<Seq<char>>
    decreases t.len(),
{
    if t.len() == 0 {
        Some(Seq::empty())
    } else if t[0] == '%' && t.len() >= 2 && is_digit(t[1]) {
        if 0 <= digit_index(t[1]) < args.len() {
            match subst_spec(t.subrange(2, t.len() as int), args) {
                Some(rest) => Some(args[digit_index(t[1])] + rest),
                None => None,
            }
        } else {
            None
        }
    } else {
        match subst_spec(t.subrange(1, t.len() as int), args) {
            Some(rest) => Some(seq![t[0]] + rest),
            None => None,
        }
    }
}

/// A command template as read from the configuration's `scripts`
/// table.
#[derive(Debug)]
pub struct Command {
    pub template: String,
}

impl Command {
    pub fn new(template: String) -> (r: Command)
        ensures
            r.template@ == template@,
    {
        Command { template }
    }

    /// Substitutes the user's positional arguments into the
    /// template: exactly the substitution the template describes, or
    /// the argument-mismatch error when a placeholder's position has
    /// no argument.
    pub fn insert_args(&self, args: &Vec<String>) -> (r: Result<String, String>)
        ensures
            r is Ok <==> subst_spec(self.template@, strs_view(args@)) is Some,
            r matches Ok(s) ==> subst_spec(self.template@, strs_view(args@)) == Some(s@),
            r matches Err(e) ==> e@ == "Command expects an argument that was not provided."@,
    {
        let tmpl = self.template.as_str();
        let ghost t = self.template@;
        let ghost a = strs_view(args@);
        let n = tmpl.unicode_len();
        let mut out = String::new();
        let mut pos: usize = 0;
        proof {
            assert(t.skip(0) =~= t);
            match subst_spec(t, a) {
                Some(rest) => {
                    assert(Seq::<char>::empty() + rest =~= rest);
                },
                None => {},
            }
        }
        while pos < n
            invariant
                tmpl@ == t,
                t == self.template@,
                a == strs_view(args@),
                a.len() == args@.len(),
                n == t.len(),
                0 <= pos <= n,
                match subst_spec(t.skip(pos as int), a) {
                    Some(rest) => subst_spec(t, a) == Some(out@ + rest),
                    None => subst_spec(t, a) is None,
                },
            decreases n - pos,
        {
            let ghost k = pos as int;
            let c = tmpl.get_char(pos);
            proof {
                assert(t.skip(k)[0] == t[k]);
            }
            if c == '%' && pos + 1 < n {
                let d = tmpl.get_char(pos + 1);
                let u = d as u32;
                if u >= 48 && u <= 57 {
                    proof {
                        assert(t.skip(k)[1] == t[k + 1]);
                        assert(t.skip(k).subrange(2, t.skip(k).len() as int) =~= t.skip(k + 2));
                    }
                    let idx = (u - 48) as usize;
                    if idx < args.len() {
                        proof {
                            assert(a[idx as int] == args@[idx as int]@);
                            match subst_spec(t.skip(k + 2), a) {
                                Some(rest2) => {
                                    assert(subst_spec(t.skip(k), a) == Some(
                                        a[idx as int] + rest2,
                                    ));
                                    assert((out@ + a[idx as int]) + rest2 =~= out@ + (a[
                                        idx as int
                                    ] + rest2));
                                },
                                None => {},
                            }
                        }
                        out.append(args[idx].as_str());
                        pos = pos + 2;
                    } else {
                        proof {
                            assert(subst_spec(t.skip(k), a) is None);
                        }
                        return Err("Command expects an argument that was not provided.".to_owned());
                    }
                } else {
                    proof {
                        assert(!is_digit(t[k + 1]));
                        assert(t.skip(k).subrange(1, t.skip(k).len() as int) =~= t.skip(k + 1));
                        match subst_spec(t.skip(k + 1), a) {
                            Some(rest2) => {
                                assert(subst_spec(t.skip(k), a) == Some(seq![t[k]] + rest2));
                                assert((out@ + t.subrange(k, k + 1)) + rest2 =~= out@ + (
                                seq![t[k]] + rest2));
                            },
                            None => {},
                        }
                    }
                    let piece = tmpl.substring_char(pos, pos + 1);
                    out.append(piece);
                    pos = pos + 1;
                }
            } else {
                proof {
                    assert(t.skip(k).len() == 1 || t.skip(k)[0] != '%');
                    assert(t.skip(k).subrange(1, t.skip(k).len() as int) =~= t.skip(k + 1));
                    match subst_spec(t.skip(k + 1), a) {
                        Some(rest2) => {
                            assert(subst_spec(t.skip(k), a) == Some(seq![t[k]] + rest2));
                            assert((out@ + t.subrange(k, k + 1)) + rest2 =~= out@ + (
                            seq![t[k]] + rest2));
                        },
                        None => {},
                    }
                }
                let piece = tmpl.substring_char(pos, pos + 1);
                out.append(piece);
                pos = pos + 1;
            }
        }
        proof {
            assert(t.skip(n as int) =~= Seq::<char>::empty());
            assert(out@ + Seq::<char>::empty() =~= out@);
        }
        Ok(out)
    }
}

} // verus!
