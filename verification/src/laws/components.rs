//! What the facades say and hear about components, and about what can be
//! switched on and off.
use crate::commands::{Component, ComponentCommand};
use crate::components::{
    ComponentBackendFacade, ComponentFacade, HasComponent, HasHandler, HasToggle,
    IdentifiableComponentBackendFacade, IdentifiableComponentFacade,
    IdentifiableToggleableBackendFacade, IdentifiableToggleableFacade, MqttComponentFacade,
    MqttToggleableComponentFacade, MqttToggleableFacade, ToggleableBackendFacade,
    ToggleableFacade,
};
use crate::filter::lemma_filter_accepts_itself;
use crate::handler::MqttHandler;
use crate::laws::names::{lemma_path_is_spelt, spelt};
use crate::laws::talk::{heard_as_notice, heard_as_value};
use crate::requests::{level_of, Publication, Subscription};
use crate::topics::{HermesTopic, SiteId, TopicModel};
use vstd::prelude::*;

verus! {

/// A facade speaks for the component that it was made for and goes through the
/// handler that it was made with.
pub proof fn lemma_facade_of_component(
    facade: MqttComponentFacade,
    component: Component,
    handler: &MqttHandler,
)
    requires
        call_ensures(<MqttComponentFacade as HasComponent>::component, (&facade,), component),
        call_ensures(<MqttComponentFacade as HasHandler>::mqtt_handler, (&facade,), handler),
    ensures
        facade.component_model() == facade.component,
        component == facade.component,
        facade.handler_model() == *facade.mqtt_handler,
        *handler == *facade.mqtt_handler,
{
}

/// A facade is switched on by the topic it was made with for that, and off by
/// the other, and goes through the handler that it was made with.
pub proof fn lemma_facade_of_toggles(
    facade: MqttToggleableFacade,
    on: &HermesTopic,
    off: &HermesTopic,
    handler: &MqttHandler,
)
    requires
        call_ensures(<MqttToggleableFacade as HasToggle>::toggle_on_topic, (&facade,), on),
        call_ensures(<MqttToggleableFacade as HasToggle>::toggle_off_topic, (&facade,), off),
        call_ensures(<MqttToggleableFacade as HasHandler>::mqtt_handler, (&facade,), handler),
    ensures
        facade.toggle_on_model() == facade.toggle_on_topic@,
        facade.toggle_off_model() == facade.toggle_off_topic@,
        on@ == facade.toggle_on_topic@,
        off@ == facade.toggle_off_topic@,
        facade.handler_model() == *facade.mqtt_handler,
        *handler == *facade.mqtt_handler,
{
}

/// A facade that stands for a component and two topics speaks for that
/// component, is switched on by the first topic and off by the second, whatever
/// the component.
pub proof fn lemma_facade_of_toggleable_component(
    facade: MqttToggleableComponentFacade,
    component: Component,
    on: TopicModel,
    off: TopicModel,
)
    ensures
        facade.stands_for(component, on, off) <==> facade.component == component
            && facade.toggle_on_topic@ == on && facade.toggle_off_topic@ == off,
        facade.stands_for(component, on, off) ==> facade.component_model() == component
            && facade.toggle_on_model() == on && facade.toggle_off_model() == off,
        facade.component_model() == facade.component,
        facade.toggle_on_model() == facade.toggle_on_topic@,
        facade.toggle_off_model() == facade.toggle_off_topic@,
        facade.handler_model() == *facade.mqtt_handler,
{
}

/// What a facade with toggles gives out for itself is what it was made with.
pub proof fn lemma_parts_of_toggleable_component(
    facade: MqttToggleableComponentFacade,
    component: Component,
    on: &HermesTopic,
    off: &HermesTopic,
    handler: &MqttHandler,
)
    requires
        call_ensures(
            <MqttToggleableComponentFacade as HasComponent>::component,
            (&facade,),
            component,
        ),
        call_ensures(<MqttToggleableComponentFacade as HasToggle>::toggle_on_topic, (&facade,), on),
        call_ensures(
            <MqttToggleableComponentFacade as HasToggle>::toggle_off_topic,
            (&facade,),
            off,
        ),
        call_ensures(
            <MqttToggleableComponentFacade as HasHandler>::mqtt_handler,
            (&facade,),
            handler,
        ),
    ensures
        component == facade.component,
        on@ == facade.toggle_on_topic@,
        off@ == facade.toggle_off_topic@,
        *handler == *facade.mqtt_handler,
{
}

/// A component that stands for two topics is switched on by a message on the
/// first and off by a message on the second, both without a payload, and what
/// subscribed to be switched hears both.
pub proof fn lemma_toggles(
    client: MqttToggleableComponentFacade,
    backend: MqttToggleableComponentFacade,
    component: Component,
    on: TopicModel,
    off: TopicModel,
    said_on: Publication,
    said_off: Publication,
    heard_on: Subscription,
    heard_off: Subscription,
)
    requires
        client.stands_for(component, on, off),
        backend.stands_for(component, on, off),
        level_of(on) is Debug && level_of(off) is Debug,
        call_ensures(
            <MqttToggleableComponentFacade as ToggleableFacade>::publish_toggle_on,
            (&client,),
            said_on,
        ),
        call_ensures(
            <MqttToggleableComponentFacade as ToggleableFacade>::publish_toggle_off,
            (&client,),
            said_off,
        ),
        call_ensures(
            <MqttToggleableComponentFacade as ToggleableBackendFacade>::subscribe_toggle_on,
            (&backend,),
            heard_on,
        ),
        call_ensures(
            <MqttToggleableComponentFacade as ToggleableBackendFacade>::subscribe_toggle_off,
            (&backend,),
            heard_off,
        ),
    ensures
        heard_as_notice(said_on, heard_on, spelt(on)),
        heard_as_notice(said_off, heard_off, spelt(off)),
{
    lemma_facade_of_toggleable_component(client, component, on, off);
    lemma_facade_of_toggleable_component(backend, component, on, off);
    lemma_path_is_spelt(on);
    lemma_path_is_spelt(off);
    lemma_filter_accepts_itself(on.path());
    lemma_filter_accepts_itself(off.path());
}

/// Something is switched on at one site, with the site as the payload, on the
/// topic that switches it on, and what subscribed to be switched at a site is
/// given the site.
pub fn toggle_on_at_site<
    S: IdentifiableToggleableFacade,
    H: IdentifiableToggleableBackendFacade,
    E,
>(speaker: &S, hearer: &H, site: Result<Vec<u8>, E>) -> (talk: (
    Result<Publication, E>,
    Subscription,
))
    requires
        speaker.toggle_on_model() == hearer.toggle_on_model(),
        level_of(speaker.toggle_on_model()) is Debug,
    ensures
        heard_as_value(talk.0, site, talk.1, spelt(speaker.toggle_on_model())),
{
    proof {
        lemma_path_is_spelt(speaker.toggle_on_model());
        lemma_filter_accepts_itself(speaker.toggle_on_model().path());
    }
    (speaker.publish_toggle_on(site), hearer.subscribe_toggle_on())
}

/// Something is switched off at one site, with the site as the payload, on the
/// topic that switches it off, and what subscribed to be switched at a site is
/// given the site.
pub fn toggle_off_at_site<
    S: IdentifiableToggleableFacade,
    H: IdentifiableToggleableBackendFacade,
    E,
>(speaker: &S, hearer: &H, site: Result<Vec<u8>, E>) -> (talk: (
    Result<Publication, E>,
    Subscription,
))
    requires
        speaker.toggle_off_model() == hearer.toggle_off_model(),
        level_of(speaker.toggle_off_model()) is Debug,
    ensures
        heard_as_value(talk.0, site, talk.1, spelt(speaker.toggle_off_model())),
{
    proof {
        lemma_path_is_spelt(speaker.toggle_off_model());
        lemma_filter_accepts_itself(speaker.toggle_off_model().path());
    }
    (speaker.publish_toggle_off(site), hearer.subscribe_toggle_off())
}

/// The name of a topic of a component, for all sites.
pub open spec fn component_name(component: Component, word: Seq<char>) -> Seq<char> {
    "hermes/"@ + component.word() + "/"@ + word
}

/// The name of a topic of a component, for one site.
pub open spec fn component_name_at(
    component: Component,
    site: Seq<char>,
    word: Seq<char>,
) -> Seq<char> {
    "hermes/"@ + component.word() + "/"@ + site + "/"@ + word
}

/// The version of a component is asked for under the name of that component, and
/// it hears so; the same holds at one site, under the name of the site.
pub proof fn lemma_version_request<
    S: ComponentFacade + IdentifiableComponentFacade,
    H: ComponentBackendFacade + IdentifiableComponentBackendFacade,
>(
    speaker: S,
    hearer: H,
    site: SiteId,
    said: Publication,
    heard: Subscription,
    said_at: Publication,
    heard_at: Subscription,
)
    requires
        speaker.component_model() == hearer.component_model(),
        call_ensures(<S as ComponentFacade>::publish_version_request, (&speaker,), said),
        call_ensures(<H as ComponentBackendFacade>::subscribe_version_request, (&hearer,), heard),
        call_ensures(
            <S as IdentifiableComponentFacade>::publish_version_request,
            (&speaker, site),
            said_at,
        ),
        call_ensures(
            <H as IdentifiableComponentBackendFacade>::subscribe_version_request,
            (&hearer, site),
            heard_at,
        ),
    ensures
        heard_as_notice(
            said,
            heard,
            component_name(speaker.component_model(), "versionRequest"@),
        ),
        heard_as_notice(
            said_at,
            heard_at,
            component_name_at(speaker.component_model(), site@, "versionRequest"@),
        ),
{
    let k = speaker.component_model();
    let all = TopicModel::Component(None, k, ComponentCommand::VersionRequest);
    let one = TopicModel::Component(Some(site@), k, ComponentCommand::VersionRequest);
    lemma_path_is_spelt(all);
    lemma_path_is_spelt(one);
    lemma_filter_accepts_itself(all.path());
    lemma_filter_accepts_itself(one.path());
}

/// A component tells its version under its own name, and those who subscribed
/// for it are given the version.
pub fn component_version<S: ComponentBackendFacade, H: ComponentFacade, E>(
    speaker: &S,
    hearer: &H,
    version: Result<Vec<u8>, E>,
) -> (talk: (Result<Publication, E>, Subscription))
    requires
        speaker.component_model() == hearer.component_model(),
    ensures
        heard_as_value(
            talk.0,
            version,
            talk.1,
            component_name(speaker.component_model(), "version"@),
        ),
{
    proof {
        let topic = TopicModel::Component(
            None,
            speaker.component_model(),
            ComponentCommand::Version,
        );
        lemma_path_is_spelt(topic);
        lemma_filter_accepts_itself(topic.path());
    }
    (speaker.publish_version(version), hearer.subscribe_version())
}

/// A component tells of an error under its own name, and those who subscribed
/// for its errors are given it.
pub fn component_error<S: ComponentBackendFacade, H: ComponentFacade, E>(
    speaker: &S,
    hearer: &H,
    error: Result<Vec<u8>, E>,
) -> (talk: (Result<Publication, E>, Subscription))
    requires
        speaker.component_model() == hearer.component_model(),
    ensures
        heard_as_value(
            talk.0,
            error,
            talk.1,
            component_name(speaker.component_model(), "error"@),
        ),
{
    proof {
        let topic = TopicModel::Component(None, speaker.component_model(), ComponentCommand::Error);
        lemma_path_is_spelt(topic);
        lemma_filter_accepts_itself(topic.path());
    }
    (speaker.publish_error(error), hearer.subscribe_error())
}

/// A component at a site tells its version under its own name and that of the
/// site, and those who subscribed for it there are given the version.
pub fn component_version_at<
    S: IdentifiableComponentBackendFacade,
    H: IdentifiableComponentFacade,
    E,
>(speaker: &S, hearer: &H, site: SiteId, same_site: SiteId, version: Result<Vec<u8>, E>) -> (talk: (
    Result<Publication, E>,
    Subscription,
))
    requires
        speaker.component_model() == hearer.component_model(),
        same_site@ == site@,
    ensures
        heard_as_value(
            talk.0,
            version,
            talk.1,
            component_name_at(speaker.component_model(), site@, "version"@),
        ),
{
    proof {
        let topic = TopicModel::Component(
            Some(site@),
            speaker.component_model(),
            ComponentCommand::Version,
        );
        lemma_path_is_spelt(topic);
        lemma_filter_accepts_itself(topic.path());
    }
    (speaker.publish_version(site, version), hearer.subscribe_version(same_site))
}

/// A component at a site tells of an error under its own name and that of the
/// site, and those who subscribed for its errors there are given it.
pub fn component_error_at<
    S: IdentifiableComponentBackendFacade,
    H: IdentifiableComponentFacade,
    E,
>(speaker: &S, hearer: &H, site: SiteId, same_site: SiteId, error: Result<Vec<u8>, E>) -> (talk: (
    Result<Publication, E>,
    Subscription,
))
    requires
        speaker.component_model() == hearer.component_model(),
        same_site@ == site@,
    ensures
        heard_as_value(
            talk.0,
            error,
            talk.1,
            component_name_at(speaker.component_model(), site@, "error"@),
        ),
{
    proof {
        let topic = TopicModel::Component(
            Some(site@),
            speaker.component_model(),
            ComponentCommand::Error,
        );
        lemma_path_is_spelt(topic);
        lemma_filter_accepts_itself(topic.path());
    }
    (speaker.publish_error(site, error), hearer.subscribe_error(same_site))
}

} // verus!
