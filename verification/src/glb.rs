use vstd::prelude::*;
use crate::text::{has_prefix, str_strip_prefix, str_contains_char};
use crate::text::str_eq;

verus! {

/// What the command line asks of the custom map loader: the scene to load
/// and every scale text given, in order. The scale in force is the last of
/// them that reads as a number.
#[derive(Debug)]
pub struct GlbArgs {
    pub path: Option<String>,
    pub scale_texts: Vec<String>,
}

pub open spec fn rest_after(s: Seq<char>, p: Seq<char>) -> Seq<char> {
    s.subrange(p.len() as int, s.len() as int)
}

/// The command line read from the front. `--load-glb=P` and
/// `--load-glb P` set the path (the second form takes the next argument,
/// and sets no path when there is none); `--glb-scale=S` and
/// `--glb-scale S` add a scale text (the second form takes the next
/// argument, if any). Anything else is passed over.
pub open spec fn scan_args(
    args: Seq<Seq<char>>,
    path: Option<Seq<char>>,
    scales: Seq<Seq<char>>,
) -> (Option<Seq<char>>, Seq<Seq<char>>)
    decreases args.len(),
{
    if args.len() == 0 {
        (path, scales)
    } else {
        let a = args[0];
        let rest = args.subrange(1, args.len() as int);
        if has_prefix(a, "--load-glb="@) {
            scan_args(rest, Some(rest_after(a, "--load-glb="@)), scales)
        } else if a == "--load-glb"@ {
            if rest.len() == 0 {
                (None, scales)
            } else {
                scan_args(rest.subrange(1, rest.len() as int), Some(rest[0]), scales)
            }
        } else if has_prefix(a, "--glb-scale="@) {
            scan_args(rest, path, scales.push(rest_after(a, "--glb-scale="@)))
        } else if a == "--glb-scale"@ {
            if rest.len() == 0 {
                (path, scales)
            } else {
                scan_args(rest.subrange(1, rest.len() as int), path, scales.push(rest[0]))
            }
        } else {
            scan_args(rest, path, scales)
        }
    }
}

proof fn lemma_load_flags_prefixed(a: Seq<char>)
    ensures
        has_prefix(a, "--load-glb="@) ==> has_prefix(a, "--load-glb"@),
        a == "--load-glb"@ ==> has_prefix(a, "--load-glb"@),
{
    reveal_strlit("--load-glb=");
    reveal_strlit("--load-glb");
    if has_prefix(a, "--load-glb="@) {
        assert(a.subrange(0, 10) =~= "--load-glb="@.subrange(0, 10));
        assert("--load-glb="@.subrange(0, 10) =~= "--load-glb"@);
    }
    if a == "--load-glb"@ {
        assert(a.subrange(0, 10) =~= a);
    }
}

/// Arguments that do not start with "--load-glb" leave the path alone.
pub proof fn lemma_scan_keeps_path(args: Seq<Seq<char>>, path: Option<Seq<char>>, scales: Seq<Seq<char>>)
    requires
        forall|i: int| 0 <= i < args.len() ==> !has_prefix(#[trigger] args[i], "--load-glb"@),
    ensures
        scan_args(args, path, scales).0 == path,
    decreases args.len(),
{
    if args.len() > 0 {
        let a = args[0];
        let rest = args.subrange(1, args.len() as int);
        lemma_load_flags_prefixed(a);
        assert(!has_prefix(args[0], "--load-glb"@));
        if has_prefix(a, "--glb-scale="@) {
            lemma_scan_keeps_path(rest, path, scales.push(rest_after(a, "--glb-scale="@)));
        } else if a == "--glb-scale"@ {
            if rest.len() > 0 {
                let r2 = rest.subrange(1, rest.len() as int);
                assert forall|i: int| 0 <= i < r2.len() implies !has_prefix(#[trigger] r2[i], "--load-glb"@) by {
                    assert(r2[i] == args[i + 2]);
                }
                lemma_scan_keeps_path(r2, path, scales.push(rest[0]));
            }
        } else {
            assert forall|i: int| 0 <= i < rest.len() implies !has_prefix(#[trigger] rest[i], "--load-glb"@) by {
                assert(rest[i] == args[i + 1]);
            }
            lemma_scan_keeps_path(rest, path, scales);
        }
    }
}

/// The scene named by a "--load-glb=P" argument is the one loaded when no
/// later argument starts with "--load-glb": the path is P.
pub proof fn lemma_load_glb_names_path(p: Seq<char>, rest: Seq<Seq<char>>)
    requires
        forall|i: int| 0 <= i < rest.len() ==> !has_prefix(#[trigger] rest[i], "--load-glb"@),
    ensures
        scan_args(seq!["--load-glb="@ + p] + rest, None, Seq::empty()).0 == Some(p),
{
    let args = seq!["--load-glb="@ + p] + rest;
    let a = args[0];
    assert(a == "--load-glb="@ + p);
    assert(a.subrange(0, "--load-glb="@.len() as int) =~= "--load-glb="@);
    assert(rest_after(a, "--load-glb="@) =~= p);
    assert(args.subrange(1, args.len() as int) =~= rest);
    lemma_scan_keeps_path(rest, Some(p), Seq::empty());
}

pub open spec fn arg_views(args: Seq<String>) -> Seq<Seq<char>> {
    args.map_values(|s: String| s@)
}

impl GlbArgs {
    pub open spec fn path_view(&self) -> Option<Seq<char>> {
        match self.path {
            Some(p) => Some(p@),
            None => None,
        }
    }
}

/// Reads the custom-map options from the command line (program name
/// included).
pub fn parse_glb_args(args: &Vec<String>) -> (r: GlbArgs)
    ensures
        (r.path_view(), arg_views(r.scale_texts@)) == scan_args(arg_views(args@), None, Seq::empty()),
{
    let ghost all = arg_views(args@);
    let mut path: Option<String> = None;
    let mut scales: Vec<String> = Vec::new();
    let n = args.len();
    let mut i: usize = 0;
    proof {
        assert(all.subrange(0, n as int) =~= all);
        assert(arg_views(scales@) =~= Seq::<Seq<char>>::empty());
    }
    while i < n
        invariant
            i <= n,
            n == args.len(),
            all == arg_views(args@),
            scan_args(all.subrange(i as int, n as int),
                match path { Some(p) => Some(p@), None => None },
                arg_views(scales@)) == scan_args(all, None, Seq::empty()),
        decreases n - i,
    {
        let ghost cur = all.subrange(i as int, n as int);
        let a: &str = args[i].as_str();
        proof {
            assert(cur[0] == a@);
            assert(cur.subrange(1, cur.len() as int) =~= all.subrange(i + 1, n as int));
        }
        match str_strip_prefix(a, "--load-glb=") {
            Some(rest) => {
                path = Some(rest.to_owned());
                i = i + 1;
            },
            None => {
                if str_eq(a, "--load-glb") {
                    if i + 1 < n {
                        proof {
                            assert(all.subrange(i + 1, n as int)[0] == args@[i + 1]@);
                            assert(all.subrange(i + 1, n as int).subrange(1, (n - i - 1) as int)
                                =~= all.subrange(i + 2, n as int));
                        }
                        path = Some(args[i + 1].clone());
                        i = i + 2;
                    } else {
                        path = None;
                        proof {
                            assert(all.subrange(n as int, n as int) =~= Seq::<Seq<char>>::empty());
                        }
                        i = n;
                    }
                } else {
                    match str_strip_prefix(a, "--glb-scale=") {
                        Some(rest) => {
                            let ghost before = arg_views(scales@);
                            scales.push(rest.to_owned());
                            proof {
                                assert(arg_views(scales@) =~= before.push(rest@));
                            }
                            i = i + 1;
                        },
                        None => {
                            if str_eq(a, "--glb-scale") {
                                if i + 1 < n {
                                    let ghost before = arg_views(scales@);
                                    scales.push(args[i + 1].clone());
                                    proof {
                                        assert(all.subrange(i + 1, n as int)[0] == args@[i + 1]@);
                                        assert(all.subrange(i + 1, n as int).subrange(1, (n - i - 1) as int)
                                            =~= all.subrange(i + 2, n as int));
                                        assert(arg_views(scales@) =~= before.push(args@[i + 1]@));
                                    }
                                    i = i + 2;
                                } else {
                                    proof {
                                        assert(all.subrange(n as int, n as int) =~= Seq::<Seq<char>>::empty());
                                    }
                                    i = n;
                                }
                            } else {
                                i = i + 1;
                            }
                        },
                    }
                }
            },
        }
    }
    proof {
        assert(all.subrange(n as int, n as int) =~= Seq::<Seq<char>>::empty());
    }
    GlbArgs { path, scale_texts: scales }
}

/// The asset path of the scene to load: glTF files expose their first
/// scene as "#Scene0", which is appended unless the path already names a
/// part with '#'.
pub open spec fn spec_scene_url(path: Seq<char>) -> Seq<char> {
    if path.contains('#') {
        path
    } else {
        path + "#Scene0"@
    }
}

pub fn scene_url(path: &str) -> (r: String)
    ensures
        r@ == spec_scene_url(path@),
{
    if str_contains_char(path, '#') {
        path.to_owned()
    } else {
        let mut s = path.to_owned();
        s.append("#Scene0");
        s
    }
}

} // verus!
