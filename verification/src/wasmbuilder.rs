//! Decisions of the WASM build step.
//!
//! A module flagged for compilation declares its output binary's path; the
//! build root is derived from it by requiring the binary's immediate parent
//! directory to be literally named `pkg` and taking that directory's own
//! parent (so `../foo/pkg/foo_bg.wasm` builds in `../foo`).  The builds
//! themselves run outside the library, concurrently; their results come
//! back here and are aggregated into a single verdict that names every
//! failing module.

use vstd::prelude::*;

use crate::config::WasmModule;
use crate::errors::PackError;

verus! {

/// The position of the last `/` in a path, or -1 when it has none.
pub open spec fn rfind_slash(s: Seq<char>) -> int
    decreases s.len(),
{
    if s.len() == 0 {
        -1
    } else if s.last() == '/' {
        s.len() - 1
    } else {
        rfind_slash(s.drop_last())
    }
}

/// The build directory a module path derives to: the path up to (not
/// including) its `/pkg/` tail, or `None` when the binary's parent
/// directory is not literally named `pkg`.
pub open spec fn spec_module_dir(s: Seq<char>) -> Option<Seq<char>> {
    let l = rfind_slash(s);
    if l < 0 {
        Option::None
    } else {
        let parent = s.take(l);
        if parent == seq!['p', 'k', 'g'] {
            Option::Some(Seq::empty())
        } else if parent.len() >= 4 && parent.skip(parent.len() - 4) == seq!['/', 'p', 'k', 'g'] {
            Option::Some(parent.take(parent.len() - 4))
        } else {
            Option::None
        }
    }
}

/// Derives a module's build directory from its declared binary path.
pub fn extract_module_dir(wasm_path: &str) -> (r: Result<String, PackError>)
    ensures
        r is Ok <==> spec_module_dir(wasm_path@) is Some,
        r is Ok ==> r->Ok_0@ == spec_module_dir(wasm_path@)->Some_0,
        r is Err ==> (r->Err_0 matches PackError::InvalidModulePath { path }
            && path@ == wasm_path@),
{
    let n = wasm_path.unicode_len();
    let mut last_slash: usize = 0;
    let mut found: bool = false;
    for i in 0..n
        invariant
            n == wasm_path@.len(),
            !found ==> rfind_slash(wasm_path@.take(i as int)) == -1,
            found ==> last_slash < i
                && rfind_slash(wasm_path@.take(i as int)) == last_slash as int,
    {
        let c = wasm_path.get_char(i);
        proof {
            assert(wasm_path@.take(i + 1).drop_last() =~= wasm_path@.take(i as int));
            assert(wasm_path@.take(i + 1).last() == wasm_path@[i as int]);
        }
        if c == '/' {
            last_slash = i;
            found = true;
        }
    }
    proof {
        assert(wasm_path@.take(n as int) =~= wasm_path@);
    }

    if !found {
        return Err(PackError::InvalidModulePath { path: String::from_str(wasm_path) });
    }

    let l = last_slash;
    let ghost parent = wasm_path@.take(l as int);
    if l == 3 {
        let is_pkg = wasm_path.get_char(0) == 'p' && wasm_path.get_char(1) == 'k'
            && wasm_path.get_char(2) == 'g';
        if is_pkg {
            proof {
                assert(parent =~= seq!['p', 'k', 'g']);
            }
            return Ok(String::new());
        }
        proof {
            assert(parent != seq!['p', 'k', 'g']);
            assert(parent.len() == 3 < 4);
        }
        return Err(PackError::InvalidModulePath { path: String::from_str(wasm_path) });
    }
    if l >= 4 {
        let is_pkg_tail = wasm_path.get_char(l - 4) == '/' && wasm_path.get_char(l - 3) == 'p'
            && wasm_path.get_char(l - 2) == 'k' && wasm_path.get_char(l - 1) == 'g';
        if is_pkg_tail {
            proof {
                assert(parent.skip(parent.len() - 4) =~= seq!['/', 'p', 'k', 'g']);
                assert(parent != seq!['p', 'k', 'g']);
            }
            let dir = wasm_path.substring_char(0, l - 4);
            let out = String::from_str(dir);
            proof {
                assert(out@ =~= parent.take(parent.len() - 4));
            }
            return Ok(out);
        }
        proof {
            assert(parent.skip(parent.len() - 4) != seq!['/', 'p', 'k', 'g']) by {
                let tail = parent.skip(parent.len() - 4);
                assert(tail.len() == 4);
                if tail == seq!['/', 'p', 'k', 'g'] {
                    assert(tail[0] == '/' && tail[1] == 'p' && tail[2] == 'k' && tail[3] == 'g');
                    assert(parent[parent.len() - 4] == tail[0]);
                    assert(parent[parent.len() - 3] == tail[1]);
                    assert(parent[parent.len() - 2] == tail[2]);
                    assert(parent[parent.len() - 1] == tail[3]);
                }
            }
            assert(parent.len() != 3);
        }
        return Err(PackError::InvalidModulePath { path: String::from_str(wasm_path) });
    }
    proof {
        assert(parent.len() < 4);
        assert(parent != seq!['p', 'k', 'g']) by {
            if parent == seq!['p', 'k', 'g'] {
                assert(l == 3);
            }
        }
    }
    Err(PackError::InvalidModulePath { path: String::from_str(wasm_path) })
}

/// True of a module the build step must compile: flagged for compilation
/// and backed by a local source.
pub open spec fn qualifies(m: WasmModule) -> bool {
    m.compile_wasm && m.source is Local
}

/// The modules the build step must compile, in manifest order.
pub open spec fn compile_list(ms: Seq<WasmModule>) -> Seq<WasmModule>
    decreases ms.len(),
{
    if ms.len() == 0 {
        Seq::empty()
    } else {
        compile_list(ms.drop_last()) + (if qualifies(ms.last()) {
            seq![ms.last()]
        } else {
            Seq::empty()
        })
    }
}

/// True of a planned build entry: it carries the module's id and its
/// derived build directory.
pub open spec fn plan_entry_ok(p: (String, String), m: WasmModule) -> bool {
    &&& p.0 == m.id
    &&& p.1@ == spec_module_dir(m.source->Local_0@)->Some_0
}

/// True when a module's declared path derives to a build directory.
pub open spec fn dir_ok(m: WasmModule) -> bool {
    spec_module_dir(m.source->Local_0@) is Some
}

/// True when every qualifying module's path derives to a build directory.
pub open spec fn all_dirs_derivable(ms: Seq<WasmModule>) -> bool {
    forall|i: int| 0 <= i < compile_list(ms).len() ==> dir_ok(#[trigger] compile_list(ms)[i])
}

/// Plans the build step: one (id, build directory) pair per module flagged
/// for compilation with a local source, in manifest order.  A qualifying
/// module whose path does not follow the `pkg` convention aborts the plan.
pub fn modules_to_compile(modules: &Vec<WasmModule>) -> (r: Result<
    Vec<(String, String)>,
    PackError,
>)
    ensures
        r is Ok <==> all_dirs_derivable(modules@),
        r is Ok ==> {
            &&& r->Ok_0@.len() == compile_list(modules@).len()
            &&& forall|i: int| 0 <= i < compile_list(modules@).len()
                ==> plan_entry_ok(#[trigger] r->Ok_0@[i], compile_list(modules@)[i])
        },
        r is Err ==> (r->Err_0 matches PackError::InvalidModulePath { path }
            && exists|i: int| {
                &&& 0 <= i < compile_list(modules@).len()
                &&& !dir_ok(compile_list(modules@)[i])
                &&& (forall|j: int| 0 <= j < i ==> dir_ok(compile_list(modules@)[j]))
                &&& path@ == compile_list(modules@)[i].source->Local_0@
            }),
{
    let mut plan: Vec<(String, String)> = Vec::new();
    let n = modules.len();
    let mut k: usize = 0;
    while k < n
        invariant
            n == modules@.len(),
            k <= n,
            plan@.len() == compile_list(modules@.take(k as int)).len(),
            forall|i: int| 0 <= i < plan@.len() ==> plan_entry_ok(
                plan@[i],
                compile_list(modules@.take(k as int))[i],
            ),
            forall|i: int| 0 <= i < compile_list(modules@.take(k as int)).len()
                ==> dir_ok(compile_list(modules@.take(k as int))[i]),
        decreases n - k,
    {
        let ghost pre = compile_list(modules@.take(k as int));
        let ghost post = compile_list(modules@.take(k + 1));
        proof {
            assert(modules@.take(k + 1).drop_last() =~= modules@.take(k as int));
            assert(modules@.take(k + 1).last() == modules@[k as int]);
            if qualifies(modules@[k as int]) {
                assert(post =~= pre + seq![modules@[k as int]]);
            } else {
                assert(post =~= pre);
            }
        }
        let m = &modules[k];
        if m.compile_wasm {
            if let crate::config::AssetSource::Local(path) = &m.source {
                match extract_module_dir(path.as_str()) {
                    Ok(dir) => {
                        plan.push((m.id.clone(), dir));
                    },
                    Err(e) => {
                        proof {
                            assert(post.last() == modules@[k as int]);
                            assert(!dir_ok(post[post.len() - 1]));
                            lemma_compile_list_take_prefix(modules@, k + 1);
                            let full = compile_list(modules@);
                            let fail_at = post.len() - 1;
                            assert(full[fail_at] == post[fail_at]);
                            assert(!dir_ok(compile_list(modules@)[fail_at]));
                            assert(!all_dirs_derivable(modules@));
                            assert forall|j: int| 0 <= j < fail_at
                                implies dir_ok(compile_list(modules@)[j]) by {
                                assert(full[j] == post[j]);
                                assert(post[j] == pre[j]);
                                assert(dir_ok(pre[j]));
                            };
                        }
                        return Err(e);
                    },
                }
            }
        }
        proof {
            assert forall|i: int| 0 <= i < post.len() implies dir_ok(post[i]) by {
                if i < pre.len() {
                    assert(post[i] == pre[i]);
                    assert(dir_ok(pre[i]));
                } else {
                    assert(post[i] == modules@[k as int]);
                }
            };
            assert(plan@.len() == post.len());
            assert forall|i: int| 0 <= i < plan@.len() implies plan_entry_ok(
                plan@[i],
                post[i],
            ) by {
                if i < pre.len() {
                    assert(post[i] == pre[i]);
                    assert(plan_entry_ok(plan@[i], pre[i]));
                } else {
                    assert(post[i] == modules@[k as int]);
                }
            };
        }
        k = k + 1;
    }
    proof {
        assert(modules@.take(n as int) =~= modules@);
    }
    Ok(plan)
}

/// Every prefix's compile list is a prefix of the full compile list.
proof fn lemma_compile_list_take_prefix(ms: Seq<WasmModule>, k: int)
    requires
        0 <= k <= ms.len(),
    ensures
        compile_list(ms.take(k)).len() <= compile_list(ms).len(),
        forall|i: int| 0 <= i < compile_list(ms.take(k)).len()
            ==> compile_list(ms)[i] == compile_list(ms.take(k))[i],
    decreases ms.len() - k,
{
    if k == ms.len() {
        assert(ms.take(k) =~= ms);
    } else {
        lemma_compile_list_take_prefix(ms, k + 1);
        assert(ms.take(k + 1).drop_last() =~= ms.take(k));
        assert(ms.take(k + 1).last() == ms[k]);
    }
}

/// The ids of the builds that failed, in order.
pub open spec fn failed_ids(ids: Seq<String>, ok: Seq<bool>) -> Seq<String>
    recommends
        ids.len() == ok.len(),
    decreases ids.len(),
{
    if ids.len() == 0 || ok.len() == 0 {
        Seq::empty()
    } else {
        failed_ids(ids.drop_last(), ok.drop_last()) + (if !ok.last() {
            seq![ids.last()]
        } else {
            Seq::empty()
        })
    }
}

/// Aggregates the per-module build results, ids and outcomes aligned by
/// position: success only when every build succeeded, otherwise a single
/// failure naming exactly the modules that failed, in order.  One module's
/// failure never hides another's: all results are consulted.
pub fn aggregate_build_results(ids: &Vec<String>, ok: &Vec<bool>) -> (r: Result<(), PackError>)
    requires
        ids@.len() == ok@.len(),
    ensures
        r is Ok <==> (forall|i: int| 0 <= i < ok@.len() ==> ok@[i]),
        r is Err ==> (r->Err_0 matches PackError::BuildsFailed { failed }
            && failed@ == failed_ids(ids@, ok@)),
{
    let mut failed: Vec<String> = Vec::new();
    let n = ids.len();
    for k in 0..n
        invariant
            n == ids@.len(),
            n == ok@.len(),
            failed@ == failed_ids(ids@.take(k as int), ok@.take(k as int)),
            failed@.len() == 0 <==> (forall|j: int| 0 <= j < k ==> ok@[j]),
    {
        proof {
            assert(ids@.take(k + 1).drop_last() =~= ids@.take(k as int));
            assert(ok@.take(k + 1).drop_last() =~= ok@.take(k as int));
            assert(ids@.take(k + 1).last() == ids@[k as int]);
            assert(ok@.take(k + 1).last() == ok@[k as int]);
        }
        if !ok[k] {
            failed.push(ids[k].clone());
        }
    }
    proof {
        assert(ids@.take(n as int) =~= ids@);
        assert(ok@.take(n as int) =~= ok@);
    }
    if failed.len() == 0 {
        Ok(())
    } else {
        Err(PackError::BuildsFailed { failed })
    }
}

} // verus!
