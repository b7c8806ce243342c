//! Discord rich presence: the activity the launcher shows while a game
//! runs, built with filthy-rich.
use vstd::prelude::*;
use filthy_rich::errors::ActivitySpecBuildError;
use filthy_rich::types::{Activity, ActivitySpec, ActivityType, StatusDisplayType};

verus! {

/// Which element of the activity Discord shows as the status.
#[derive(Debug, Clone, Copy, PartialEq, Eq, Structural)]
pub enum PresenceStatusDisplayType {
    Name,
    Details,
    State,
}

impl Default for PresenceStatusDisplayType {
    fn default() -> (r: Self)
        ensures
            r == PresenceStatusDisplayType::Name,
    {
        PresenceStatusDisplayType::Name
    }
}

/// The text a display type is shown as.
pub open spec fn display_type_label(t: PresenceStatusDisplayType) -> Seq<char> {
    match t {
        PresenceStatusDisplayType::Name => "Name"@,
        PresenceStatusDisplayType::Details => "Details"@,
        PresenceStatusDisplayType::State => "State"@,
    }
}

impl PresenceStatusDisplayType {
    /// Every display type, in the order a picker lists them.
    pub fn all() -> (r: Vec<PresenceStatusDisplayType>)
        ensures
            r@ == seq![
                PresenceStatusDisplayType::Name,
                PresenceStatusDisplayType::Details,
                PresenceStatusDisplayType::State,
            ],
    {
        vec![
            PresenceStatusDisplayType::Name,
            PresenceStatusDisplayType::Details,
            PresenceStatusDisplayType::State,
        ]
    }

    /// The text the display type is shown as.
    pub fn label(&self) -> (r: &'static str)
        ensures
            r@ == display_type_label(*self),
    {
        match self {
            PresenceStatusDisplayType::Name => "Name",
            PresenceStatusDisplayType::Details => "Details",
            PresenceStatusDisplayType::State => "State",
        }
    }
}

#[verifier::external_type_specification]
#[verifier::external_body]
pub struct ExActivitySpec(ActivitySpec);

#[verifier::external_type_specification]
#[verifier::external_body]
pub struct ExActivitySpecBuildError(ActivitySpecBuildError);

/// The elements an activity is built from; an empty text stands for an
/// element that is not set, as filthy-rich's builder takes it.
pub struct ActivityFields {
    pub name: String,
    pub competing: bool,
    pub display: PresenceStatusDisplayType,
    pub details: String,
    pub details_url: String,
    pub state: String,
    pub state_url: String,
}

/// The text of an optional element, empty when it is missing.
pub open spec fn text_or_empty(o: Option<String>) -> Seq<char> {
    match o {
        Some(s) => s@,
        None => Seq::empty(),
    }
}

/// The elements of the activity for the given presence settings: the URL
/// of the details (of the state) only when there are details (a state).
pub open spec fn activity_fields_of(
    name: Option<String>,
    sdt: PresenceStatusDisplayType,
    competing: bool,
    details: Option<String>,
    details_url: Option<String>,
    state: Option<String>,
    state_url: Option<String>,
    f: ActivityFields,
) -> bool {
    &&& f.name@ == text_or_empty(name)
    &&& f.competing == competing
    &&& f.display == sdt
    &&& f.details@ == text_or_empty(details)
    &&& f.details_url@ == (if details is Some {
        text_or_empty(details_url)
    } else {
        Seq::empty()
    })
    &&& f.state@ == text_or_empty(state)
    &&& f.state_url@ == (if state is Some {
        text_or_empty(state_url)
    } else {
        Seq::empty()
    })
}

/// When filthy-rich refuses to build an activity: a URL without its
/// element, or a status display pointing at a missing element.
pub open spec fn activity_build_fails(f: ActivityFields) -> bool {
    ||| f.details@.len() == 0 && f.details_url@.len() > 0
    ||| f.state@.len() == 0 && f.state_url@.len() > 0
    ||| f.display == PresenceStatusDisplayType::Details && f.details@.len() == 0
    ||| f.display == PresenceStatusDisplayType::State && f.state@.len() == 0
}

/// The activity that filthy-rich's builder builds from these elements
/// (name, competing rather than playing, status display, details and its
/// URL, state and its URL).
pub uninterp spec fn activity_spec_of(
    name: Seq<char>,
    competing: bool,
    display: PresenceStatusDisplayType,
    details: Seq<char>,
    details_url: Seq<char>,
    state: Seq<char>,
    state_url: Seq<char>,
) -> ActivitySpec;

/// `Activity::new()` with the type, status display, name, details, state
/// and their URLs set from `f`, then `ActivityBuilder::build`. The setters
/// treat an empty text as unset; `build` fails exactly in the cases of
/// `activity_build_fails` (no image assets are set here), and the built
/// `ActivitySpec` is named `activity_spec_of` of the elements.
#[verifier::external_body]
fn build_activity(f: ActivityFields) -> (r: Result<ActivitySpec, ActivitySpecBuildError>)
    ensures
        r is Err <==> activity_build_fails(f),
        r matches Ok(a) ==> a == activity_spec_of(
            f.name@,
            f.competing,
            f.display,
            f.details@,
            f.details_url@,
            f.state@,
            f.state_url@,
        ),
{
    let kind = if f.competing { ActivityType::Competing } else { ActivityType::Playing };
    let shown = match f.display {
        PresenceStatusDisplayType::Name => StatusDisplayType::Name,
        PresenceStatusDisplayType::Details => StatusDisplayType::Details,
        PresenceStatusDisplayType::State => StatusDisplayType::State,
    };
    Activity::new().activity_type(kind).status_display_type(shown).name(f.name).details(
        f.details,
    ).details_url(f.details_url).state(f.state).state_url(f.state_url).build()
}

fn text_of(o: Option<String>) -> (r: String)
    ensures
        r@ == text_or_empty(o),
{
    match o {
        Some(s) => s,
        None => String::new(),
    }
}

/// The elements of the activity for the given presence settings (see
/// `activity_fields_of`).
pub fn activity_fields(
    name: Option<String>,
    sdt: PresenceStatusDisplayType,
    competing: bool,
    details: Option<String>,
    details_url: Option<String>,
    state: Option<String>,
    state_url: Option<String>,
) -> (f: ActivityFields)
    ensures
        activity_fields_of(name, sdt, competing, details, details_url, state, state_url, f),
{
    let has_details = details.is_some();
    let has_state = state.is_some();
    ActivityFields {
        name: text_of(name),
        competing,
        display: sdt,
        details: text_of(details),
        details_url: if has_details {
            text_of(details_url)
        } else {
            String::new()
        },
        state: text_of(state),
        state_url: if has_state {
            text_of(state_url)
        } else {
            String::new()
        },
    }
}

/// Builds the activity for the given presence settings: playing (or
/// competing), with the chosen status display, the name, and the details
/// and state with their URLs (a URL only along with its element).
pub fn bake_activity(
    name: Option<String>,
    sdt: PresenceStatusDisplayType,
    competing: bool,
    details: Option<String>,
    details_url: Option<String>,
    state: Option<String>,
    state_url: Option<String>,
) -> (r: Result<ActivitySpec, ActivitySpecBuildError>)
    ensures
        r is Err <==> presence_build_fails(sdt, details, details_url, state, state_url),
        r matches Ok(a) ==> a == presence_activity(
            name,
            sdt,
            competing,
            details,
            details_url,
            state,
            state_url,
        ),
{
    let f = activity_fields(name, sdt, competing, details, details_url, state, state_url);
    build_activity(f)
}

/// The activity built for the given presence settings: the name, the
/// details and the state as texts (empty when missing), each URL only along
/// with its element.
pub open spec fn presence_activity(
    name: Option<String>,
    sdt: PresenceStatusDisplayType,
    competing: bool,
    details: Option<String>,
    details_url: Option<String>,
    state: Option<String>,
    state_url: Option<String>,
) -> ActivitySpec {
    activity_spec_of(
        text_or_empty(name),
        competing,
        sdt,
        text_or_empty(details),
        if details is Some {
            text_or_empty(details_url)
        } else {
            Seq::empty()
        },
        text_or_empty(state),
        if state is Some {
            text_or_empty(state_url)
        } else {
            Seq::empty()
        },
    )
}

/// When the activity for the given presence settings cannot be built: an
/// empty details (state) text given with a URL, or a status display
/// pointing at missing or empty details (state).
pub open spec fn presence_build_fails(
    sdt: PresenceStatusDisplayType,
    details: Option<String>,
    details_url: Option<String>,
    state: Option<String>,
    state_url: Option<String>,
) -> bool {
    let d = text_or_empty(details);
    let du = if details is Some {
        text_or_empty(details_url)
    } else {
        Seq::empty()
    };
    let st = text_or_empty(state);
    let su = if state is Some {
        text_or_empty(state_url)
    } else {
        Seq::empty()
    };
    ||| d.len() == 0 && du.len() > 0
    ||| st.len() == 0 && su.len() > 0
    ||| sdt == PresenceStatusDisplayType::Details && d.len() == 0
    ||| sdt == PresenceStatusDisplayType::State && st.len() == 0
}

/// The activity is of type Competing exactly when `competing` is asked and
/// of type Playing otherwise: the elements handed to the builder carry the
/// flag as given, and the activity baked is the builder's result on those
/// elements with that flag.
pub proof fn law_activity_kind_follows_flag(
    name: Option<String>,
    sdt: PresenceStatusDisplayType,
    competing: bool,
    details: Option<String>,
    details_url: Option<String>,
    state: Option<String>,
    state_url: Option<String>,
    f: ActivityFields,
)
    requires
        activity_fields_of(name, sdt, competing, details, details_url, state, state_url, f),
    ensures
        f.competing == competing,
        presence_activity(name, sdt, competing, details, details_url, state, state_url) == activity_spec_of(
            f.name@,
            competing,
            f.display,
            f.details@,
            f.details_url@,
            f.state@,
            f.state_url@,
        ),
{
}

/// A URL given without its element is dropped: the activity and whether it
/// can be built are the same as without the URL.
pub proof fn law_url_needs_its_element(
    name: Option<String>,
    sdt: PresenceStatusDisplayType,
    competing: bool,
    details_url: Option<String>,
    state: Option<String>,
    state_url: Option<String>,
    details: Option<String>,
)
    ensures
        presence_activity(name, sdt, competing, None, details_url, state, state_url) == presence_activity(
            name,
            sdt,
            competing,
            None,
            None,
            state,
            state_url,
        ),
        presence_activity(name, sdt, competing, details, details_url, None, state_url) == presence_activity(
            name,
            sdt,
            competing,
            details,
            details_url,
            None,
            None,
        ),
        presence_build_fails(sdt, None, details_url, state, state_url) == presence_build_fails(
            sdt,
            None,
            None,
            state,
            state_url,
        ),
        presence_build_fails(sdt, details, details_url, None, state_url) == presence_build_fails(
            sdt,
            details,
            details_url,
            None,
            None,
        ),
{
}

} // verus!
