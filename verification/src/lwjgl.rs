//! The screen that picks the LWJGL version of an instance: the version
//! preselected once the list is loaded, the pick, and what is saved.

use vstd::prelude::*;
use crate::accounts::str_eq;
use crate::text::concat;

verus! {

/// The LWJGL versions that can be picked, LWJGL 3 first.
pub struct LwjglVersions {
    pub lwjgl3: Vec<String>,
    pub lwjgl2: Vec<String>,
}

/// Two version lists hold the same versions.
pub open spec fn same_versions(a: LwjglVersions, b: LwjglVersions) -> bool {
    a.lwjgl3@ == b.lwjgl3@ && a.lwjgl2@ == b.lwjgl2@
}

impl LwjglVersions {
    fn copy(&self) -> (r: Self)
        ensures
            same_versions(r, *self),
    {
        let r = LwjglVersions { lwjgl3: copy_list(&self.lwjgl3), lwjgl2: copy_list(&self.lwjgl2) };
        r
    }
}

fn copy_list(v: &Vec<String>) -> (r: Vec<String>)
    ensures
        r@ == v@,
{
    let mut out: Vec<String> = Vec::new();
    let mut i: usize = 0;
    while i < v.len()
        invariant
            i <= v@.len(),
            out@ == v@.take(i as int),
        decreases v.len() - i,
    {
        out.push(v[i].clone());
        assert(out@ =~= v@.take(i + 1));
        i += 1;
    }
    assert(v@.take(v@.len() as int) =~= v@);
    out
}

/// The screens the LWJGL messages look at or open; `Other` stands for any
/// other.
pub enum LwjglScreen {
    /// The list is loading; the version the instance has set, if any.
    Loading { initial_version: Option<String> },
    Loaded { versions: LwjglVersions, selected_version: String, initial_version: Option<String>, is_applying: bool },
    Error(String),
    Launch,
    Other,
}

/// The screen and the versions loaded so far.
pub struct LwjglState {
    pub screen: LwjglScreen,
    pub cache: Option<LwjglVersions>,
}

pub enum LwjglMsg {
    VersionsLoaded(Result<LwjglVersions, String>),
    VersionSelected(Option<String>),
    Apply,
    Back,
}

pub enum LwjglAction {
    Nothing,
    /// Write the version into the instance's config (`None`: the default).
    Save(Option<String>),
}

/// The version preselected: the one set, else the first LWJGL 3 version,
/// else the first LWJGL 2 version, else "default".
pub open spec fn preselected(initial: Option<String>, v: LwjglVersions) -> Seq<char> {
    match initial {
        Some(s) => s@,
        None => if v.lwjgl3@.len() > 0 {
            v.lwjgl3@[0]@
        } else if v.lwjgl2@.len() > 0 {
            v.lwjgl2@[0]@
        } else {
            "default"@
        },
    }
}

/// The next state and the work for an LWJGL message.
pub open spec fn lwjgl_effect(o: LwjglState, msg: LwjglMsg, n: LwjglState, r: LwjglAction) -> bool {
    match msg {
        LwjglMsg::VersionsLoaded(Ok(v)) => r is Nothing && match o.screen {
            LwjglScreen::Loading { initial_version } => {
                &&& n.cache matches Some(c) && same_versions(c, v)
                &&& n.screen matches LwjglScreen::Loaded { versions, selected_version, initial_version: i, is_applying }
                    && versions == v && selected_version@ == preselected(initial_version, v)
                    && i == initial_version && !is_applying
            },
            _ => n == o,
        },
        LwjglMsg::VersionsLoaded(Err(e)) => r is Nothing && n.cache == o.cache
            && (n.screen matches LwjglScreen::Error(t) && t@ == "Failed to load LWJGL versions: "@ + e@),
        LwjglMsg::VersionSelected(pick) => r is Nothing && match (o.screen, pick) {
            (LwjglScreen::Loaded { versions, initial_version, is_applying, .. }, Some(p)) => n == (LwjglState {
                screen: LwjglScreen::Loaded { versions, selected_version: p, initial_version, is_applying },
                ..o
            }),
            _ => n == o,
        },
        LwjglMsg::Apply => match o.screen {
            LwjglScreen::Loaded { versions, selected_version, initial_version, .. } => {
                &&& n == (LwjglState {
                    screen: LwjglScreen::Loaded { versions, selected_version, initial_version, is_applying: true },
                    ..o
                })
                &&& r matches LwjglAction::Save(v) && (v is None <==> selected_version@ == "default"@)
                    && (v matches Some(s) ==> s@ == selected_version@)
            },
            _ => n == o && r is Nothing,
        },
        LwjglMsg::Back => r is Nothing && n == (LwjglState { screen: LwjglScreen::Launch, ..o }),
    }
}

/// One step of the LWJGL screen (see `lwjgl_effect`).
pub fn lwjgl_step(s: &mut LwjglState, msg: LwjglMsg) -> (r: LwjglAction)
    ensures
        lwjgl_effect(*old(s), msg, *final(s), r),
{
    match msg {
        LwjglMsg::VersionsLoaded(Ok(v)) => {
            let initial = match &s.screen {
                LwjglScreen::Loading { initial_version } => Some(initial_version.clone()),
                _ => None,
            };
            if let Some(initial_version) = initial {
                let selected_version = match &initial_version {
                    Some(i) => i.clone(),
                    None => if v.lwjgl3.len() > 0 {
                        v.lwjgl3[0].clone()
                    } else if v.lwjgl2.len() > 0 {
                        v.lwjgl2[0].clone()
                    } else {
                        "default".to_owned()
                    },
                };
                s.cache = Some(v.copy());
                s.screen = LwjglScreen::Loaded { versions: v, selected_version, initial_version, is_applying: false };
            }
            LwjglAction::Nothing
        },
        LwjglMsg::VersionsLoaded(Err(e)) => {
            s.screen = LwjglScreen::Error(concat("Failed to load LWJGL versions: ", e.as_str()));
            LwjglAction::Nothing
        },
        LwjglMsg::VersionSelected(pick) => {
            if let LwjglScreen::Loaded { selected_version, .. } = &mut s.screen {
                if let Some(p) = pick {
                    *selected_version = p;
                }
            }
            LwjglAction::Nothing
        },
        LwjglMsg::Apply => {
            if let LwjglScreen::Loaded { selected_version, is_applying, .. } = &mut s.screen {
                *is_applying = true;
                let version = if str_eq(selected_version.as_str(), "default") {
                    None
                } else {
                    Some(selected_version.clone())
                };
                LwjglAction::Save(version)
            } else {
                LwjglAction::Nothing
            }
        },
        LwjglMsg::Back => {
            s.screen = LwjglScreen::Launch;
            LwjglAction::Nothing
        },
    }
}

} // verus!
