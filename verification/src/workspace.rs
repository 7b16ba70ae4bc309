//! Per-run temporary workspaces: one uniquely named directory per run,
//! holding exactly the three files a run owns (code, input, output).

use vstd::prelude::*;
use vstd::string::StringExecFns;

verus! {

/// The directory name of a run's workspace: the submission's display name
/// framed by a fixed prefix and a run identifier.
pub open spec fn workspace_name(display_name: Seq<char>, run_id: Seq<char>) -> Seq<char> {
    "submission_"@ + display_name + "_"@ + run_id
}

/// Workspace names built from distinct run identifiers of equal length are
/// themselves distinct, whatever the display names are: no two runs ever
/// share a workspace path.
pub proof fn lemma_workspace_names_distinct(
    n1: Seq<char>,
    id1: Seq<char>,
    n2: Seq<char>,
    id2: Seq<char>,
)
    requires
        id1.len() == id2.len(),
        id1 != id2,
    ensures
        workspace_name(n1, id1) != workspace_name(n2, id2),
{
    let w1 = workspace_name(n1, id1);
    let w2 = workspace_name(n2, id2);
    if w1 == w2 {
        let pre1 = "submission_"@.len() + n1.len() + "_"@.len();
        let pre2 = "submission_"@.len() + n2.len() + "_"@.len();
        assert(w1.len() == pre1 + id1.len());
        assert(w2.len() == pre2 + id2.len());
        assert(pre1 == pre2);
        assert forall|i: int| 0 <= i < id1.len() implies id1[i] == id2[i] by {
            assert(w1[pre1 + i] == id1[i]);
            assert(w2[pre2 + i] == id2[i]);
        }
        assert(id1 =~= id2);
    }
}

/// The full root path two runs under the same base can get are distinct
/// whenever their run identifiers are distinct and of equal length: even
/// repeated runs of the same submission never alias storage.
pub proof fn lemma_workspace_roots_distinct(
    base: Seq<char>,
    n1: Seq<char>,
    id1: Seq<char>,
    n2: Seq<char>,
    id2: Seq<char>,
)
    requires
        id1.len() == id2.len(),
        id1 != id2,
    ensures
        base + "/"@ + workspace_name(n1, id1) != base + "/"@ + workspace_name(n2, id2),
{
    let r1 = base + "/"@ + workspace_name(n1, id1);
    let r2 = base + "/"@ + workspace_name(n2, id2);
    if r1 == r2 {
        let p = base.len() + "/"@.len();
        assert(r1.len() == p + workspace_name(n1, id1).len());
        assert(r2.len() == p + workspace_name(n2, id2).len());
        assert(workspace_name(n1, id1).len() == workspace_name(n2, id2).len());
        assert forall|i: int| 0 <= i < workspace_name(n1, id1).len() implies workspace_name(
            n1,
            id1,
        )[i] == workspace_name(n2, id2)[i] by {
            assert(r1[p + i] == workspace_name(n1, id1)[i]);
            assert(r2[p + i] == workspace_name(n2, id2)[i]);
        }
        assert(workspace_name(n1, id1) =~= workspace_name(n2, id2));
        lemma_workspace_names_distinct(n1, id1, n2, id2);
    }
}

/// A fresh, collision-resistant run identifier.
///
/// Relies on `uuid::Uuid::new_v4` and its `Display` impl: a version-4 UUID
/// rendered in the hyphenated form, which is always 36 characters. The value
/// is random; nothing beyond its length is promised.
#[verifier::external_body]
pub fn fresh_run_id() -> (r: String)
    ensures
        r@.len() == 36,
{
    uuid::Uuid::new_v4().to_string()
}

/// One run's isolated on-disk workspace: a root directory and the three
/// files materialized inside it.
pub struct TempWorkspace {
    pub root_dir: String,
    pub code_file: String,
    pub input_file: String,
    pub output_file: String,
}

impl TempWorkspace {
    /// The three member files sit directly under the root, under their
    /// fixed names.
    pub open spec fn wf(self) -> bool {
        &&& self.code_file@ == self.root_dir@ + "/user_code.py"@
        &&& self.input_file@ == self.root_dir@ + "/input.txt"@
        &&& self.output_file@ == self.root_dir@ + "/output.txt"@
    }

    /// Lays out the workspace for one run: the root is the uniquely named
    /// per-run directory under `base_dir`, and the three file paths sit
    /// directly under that root.
    pub fn plan(base_dir: &str, display_name: &str, run_id: &str) -> (w: TempWorkspace)
        ensures
            w.wf(),
            w.root_dir@ == base_dir@ + "/"@ + workspace_name(display_name@, run_id@),
    {
        let mut root = base_dir.to_owned();
        root.append("/");
        root.append("submission_");
        root.append(display_name);
        root.append("_");
        root.append(run_id);
        let mut code_file = root.clone();
        code_file.append("/user_code.py");
        let mut input_file = root.clone();
        input_file.append("/input.txt");
        let mut output_file = root.clone();
        output_file.append("/output.txt");
        TempWorkspace { root_dir: root, code_file, input_file, output_file }
    }
}

} // verus!
