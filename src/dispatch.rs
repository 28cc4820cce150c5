use vstd::prelude::*;

use crate::runtime::{LifecycleFault, RuntimeHandle};
use crate::types::Descriptor;

verus! {

/// Where a decoded command goes: to one named part of the state, or to all of it.
#[derive(Debug, Clone, PartialEq, Eq)]
pub enum Route<A, F> {
    ToField(A, F),
    Global(A),
}

#[derive(Debug, Clone)]
pub struct AnalyticsData {
    pub addon_transport_url: String,
    pub addon_id: String,
}

#[derive(Debug, Clone)]
pub struct AnalyticsStateParams {
    pub cat: String,
    pub col_url: Option<String>,
    pub kind: String,
}

#[derive(Debug, Clone)]
pub struct AnalyticsState {
    pub name: String,
    pub params: AnalyticsStateParams,
}

#[derive(Debug, Clone)]
pub struct AnalyticsAppContext {
    pub url: String,
    pub state: AnalyticsState,
}

/// The record that installing a provider leaves for analytics.
#[derive(Debug, Clone)]
pub struct AnalyticsMessage {
    pub name: String,
    pub data: AnalyticsData,
    pub app_context: AnalyticsAppContext,
}

pub open spec fn route_of<A, F>(action: Option<A>, field: Option<F>) -> Option<Route<A, F>> {
    match action {
        Some(a) => match field {
            Some(f) => Some(Route::ToField(a, f)),
            None => Some(Route::Global(a)),
        },
        None => None,
    }
}

/// A command that could not be decoded goes nowhere; a field that could not be
/// decoded sends the command to the whole state.
pub fn route<A, F>(action: Option<A>, field: Option<F>) -> (r: Option<Route<A, F>>)
    ensures
        r == route_of(action, field),
{
    match action {
        Some(a) => match field {
            Some(f) => Some(Route::ToField(a, f)),
            None => Some(Route::Global(a)),
        },
        None => None,
    }
}

/// Where a command goes once the runtime is ready; faults before that.
pub fn dispatch_route<R, E, A, F>(handle: &RuntimeHandle<R, E>, action: Option<A>, field: Option<
    F,
>) -> (r: Result<Option<Route<A, F>>, LifecycleFault>)
    ensures
        handle.spec_state() is Ready ==> r == Ok::<Option<Route<A, F>>, LifecycleFault>(
            route_of(action, field),
        ),
        !(handle.spec_state() is Ready) ==> r == Err::<Option<Route<A, F>>, LifecycleFault>(
            LifecycleFault::NotReady,
        ),
{
    match handle.runtime() {
        Ok(_) => Ok(route(action, field)),
        Err(_) => Err(LifecycleFault::NotReady),
    }
}

/// "official" for a provider flagged official, else "community".
pub open spec fn category_of(d: Descriptor) -> Seq<char> {
    if d.official {
        seq!['o', 'f', 'f', 'i', 'c', 'i', 'a', 'l']
    } else {
        seq!['c', 'o', 'm', 'm', 'u', 'n', 'i', 't', 'y']
    }
}

pub open spec fn analytics_of(m: AnalyticsMessage, d: Descriptor) -> bool {
    &&& m.name@ == seq!['i', 'n', 's', 't', 'a', 'l', 'l', 'A', 'd', 'd', 'o', 'n']
    &&& m.data.addon_transport_url@ == d.transport_url@
    &&& m.data.addon_id@ == d.manifest.id@
    &&& m.app_context.url@ == seq!['/', 'a', 'd', 'd', 'o', 'n', 's', '/'] + category_of(d) + seq![
        '/',
        'a',
        'l',
        'l',
    ]
    &&& m.app_context.state.name@ == seq![
        'a',
        'd',
        'd',
        'o',
        'n',
        's',
        '.',
        'c',
        'a',
        't',
        '.',
        't',
        'y',
        'p',
        'e',
    ]
    &&& m.app_context.state.params.cat@ == category_of(d)
    &&& m.app_context.state.params.col_url is None
    &&& m.app_context.state.params.kind@ == seq!['a', 'l', 'l']
}

/// The analytics record for installing the provider `d`.
pub fn install_addon_analytics(d: &Descriptor) -> (r: AnalyticsMessage)
    ensures
        analytics_of(r, *d),
{
    proof {
        reveal_strlit("official");
        reveal_strlit("community");
        reveal_strlit("installAddon");
        reveal_strlit("/addons/");
        reveal_strlit("/all");
        reveal_strlit("addons.cat.type");
        reveal_strlit("all");
    }
    let category = if d.official {
        "official".to_owned()
    } else {
        "community".to_owned()
    };
    assert(category@ =~= category_of(*d));
    let mut url = "/addons/".to_owned();
    url.append(category.as_str());
    url.append("/all");
    assert(url@ =~= seq!['/', 'a', 'd', 'd', 'o', 'n', 's', '/'] + category_of(*d) + seq!['/', 'a', 'l', 'l']);
    let name = "installAddon".to_owned();
    let state_name = "addons.cat.type".to_owned();
    let kind = "all".to_owned();
    assert(name@ =~= seq!['i', 'n', 's', 't', 'a', 'l', 'l', 'A', 'd', 'd', 'o', 'n']);
    assert(state_name@ =~= seq!['a', 'd', 'd', 'o', 'n', 's', '.', 'c', 'a', 't', '.', 't', 'y', 'p', 'e']);
    assert(kind@ =~= seq!['a', 'l', 'l']);
    AnalyticsMessage {
        name,
        data: AnalyticsData {
            addon_transport_url: d.transport_url.clone(),
            addon_id: d.manifest.id.clone(),
        },
        app_context: AnalyticsAppContext {
            url,
            state: AnalyticsState {
                name: state_name,
                params: AnalyticsStateParams {
                    cat: category,
                    col_url: None,
                    kind,
                },
            },
        },
    }
}

} // verus!
