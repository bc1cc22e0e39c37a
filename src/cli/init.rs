//! Setting up the directory of a new package.
use vstd::prelude::*;

use crate::action::{effects, Action, Effect};
use crate::paths::{join_path, joined, texts};

verus! {

/// The contents of a new package's `Makefile`.
pub const MAKEFILE_CONTENTS: &'static str = "include ../Makefile.common\n";

/// The contents of a new package's `MAINTAINERS.md`.
pub const MAINTAINER_CONTENTS: &'static str = r#"This file is used to indicate primary maintainership for this package. A package may list more than one maintainer to avoid bus factor issues. People on this list may be considered “subject-matter experts”. Please note that Solus staff may need to perform necessary rebuilds, upgrades, or security fixes as part of the normal maintenance of the Solus package repository. If you believe this package requires an update, follow documentation from https://help.getsol.us/docs/packaging/procedures/request-a-package-update. In the event that this package becomes insufficiently maintained, the Solus staff reserves the right to request a new maintainer, or deprecate and remove this package from the repository entirely.

- Evan Maddock
  - Matrix: @ebonjaeger:matrix.org
  - Email: maddock.evan@vivaldi.net
"#;

/// The scaffold generator, relative to the working directory.
pub const SCAFFOLD_SCRIPT: &'static str = "common/Scripts/yauto.py";

/// Create `current/name`, write its `Makefile` (and `MAINTAINERS.md` if
/// asked), then run the scaffold generator on `url` inside it.
pub open spec fn init_effects(
    name: Seq<char>,
    url: Seq<char>,
    maintain: bool,
    current: Seq<char>,
) -> Seq<Effect> {
    seq![
        Effect::CreateDir(joined(current, name)),
        Effect::WriteFile { path: joined(name, "Makefile"@), contents: MAKEFILE_CONTENTS@ },
    ] + if maintain {
        seq![
            Effect::WriteFile {
                path: joined(name, "MAINTAINERS.md"@),
                contents: MAINTAINER_CONTENTS@,
            },
        ]
    } else {
        Seq::empty()
    } + seq![
        Effect::Run {
            program: joined(current, SCAFFOLD_SCRIPT@),
            args: seq![url],
            dir: joined(current, name),
        },
    ]
}

/// Plans the creation of package `name` from the source at `url`, with
/// `current` as the working directory.
pub fn handle(name: String, url: String, maintain: bool, current: &str) -> (r: Vec<Action>)
    ensures
        effects(r@) == init_effects(name@, url@, maintain, current@),
{
    let package_dir = join_path(current, name.as_str());
    let mut out: Vec<Action> = Vec::new();
    out.push(Action::CreateDir(package_dir.clone()));
    out.push(
        Action::WriteFile {
            path: join_path(name.as_str(), "Makefile"),
            contents: String::from_str(MAKEFILE_CONTENTS),
        },
    );
    let ghost head = out@;
    if maintain {
        out.push(
            Action::WriteFile {
                path: join_path(name.as_str(), "MAINTAINERS.md"),
                contents: String::from_str(MAINTAINER_CONTENTS),
            },
        );
    }
    let ghost middle = out@;
    let mut args: Vec<String> = Vec::new();
    args.push(url);
    proof {
        assert(texts(args@) =~= seq![args@[0]@]);
    }
    out.push(
        Action::Run { program: join_path(current, SCAFFOLD_SCRIPT), args, dir: package_dir },
    );
    proof {
        assert(effects(head) =~= seq![
            Effect::CreateDir(joined(current@, name@)),
            Effect::WriteFile { path: joined(name@, "Makefile"@), contents: MAKEFILE_CONTENTS@ },
        ]);
        if maintain {
            assert(effects(middle) =~= effects(head) + seq![
                Effect::WriteFile {
                    path: joined(name@, "MAINTAINERS.md"@),
                    contents: MAINTAINER_CONTENTS@,
                },
            ]);
        } else {
            assert(effects(middle) =~= effects(head) + Seq::<Effect>::empty());
        }
        assert(effects(out@) =~= effects(middle) + seq![out@[out@.len() - 1]@]);
    }
    out
}

} // verus!
