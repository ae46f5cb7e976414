//! What the facades share: a handler, the component they stand for and the
//! topics that switch it on and off.
use crate::commands::{Component, ComponentCommand};
use crate::handler::MqttHandler;
use crate::requests::{
    payload_publication, publication, subscription, Expected, Publication, Subscription,
};
use crate::topics::{HermesTopic, SiteId, TopicModel};
use std::sync::Arc;
use vstd::prelude::*;

verus! {

/// What publishes and subscribes through a handler.
pub trait HasHandler {
    /// The handler.
    spec fn handler_model(&self) -> MqttHandler;

    /// The handler.
    fn mqtt_handler(&self) -> (handler: &MqttHandler)
        ensures
            *handler == self.handler_model(),
    ;
}

/// What stands for a component.
pub trait HasComponent: HasHandler {
    /// The component.
    spec fn component_model(&self) -> Component;

    /// The component.
    fn component(&self) -> (component: Component)
        ensures
            component == self.component_model(),
    ;
}

/// What has topics that switch it on and off.
pub trait HasToggle: HasHandler {
    /// The topic that switches it on.
    spec fn toggle_on_model(&self) -> TopicModel;

    /// The topic that switches it off.
    spec fn toggle_off_model(&self) -> TopicModel;

    /// The topic that switches it on.
    fn toggle_on_topic(&self) -> (topic: &HermesTopic)
        ensures
            topic@ == self.toggle_on_model(),
    ;

    /// The topic that switches it off.
    fn toggle_off_topic(&self) -> (topic: &HermesTopic)
        ensures
            topic@ == self.toggle_off_model(),
    ;
}

/// What a client says to and hears of any component.
pub trait ComponentFacade: HasComponent {
    /// Tell the version.
    fn publish_version_request(&self) -> (published: Publication)
        ensures
            published@ == publication(
                TopicModel::Component(
                    None,
                    self.component_model(),
                    ComponentCommand::VersionRequest,
                ),
                Seq::empty(),
            ),
    {
        let topic = HermesTopic::Component(
            None,
            self.component(),
            ComponentCommand::VersionRequest,
        );
        self.mqtt_handler().publish(&topic)
    }

    /// For the version.
    fn subscribe_version(&self) -> (subscribed: Subscription)
        ensures
            subscribed@ == subscription(
                TopicModel::Component(None, self.component_model(), ComponentCommand::Version),
                Expected::Json,
            ),
    {
        let topic = HermesTopic::Component(None, self.component(), ComponentCommand::Version);
        self.mqtt_handler().subscribe_payload(&topic)
    }

    /// For errors.
    fn subscribe_error(&self) -> (subscribed: Subscription)
        ensures
            subscribed@ == subscription(
                TopicModel::Component(None, self.component_model(), ComponentCommand::Error),
                Expected::Json,
            ),
    {
        let topic = HermesTopic::Component(None, self.component(), ComponentCommand::Error);
        self.mqtt_handler().subscribe_payload(&topic)
    }
}

/// What any component hears and says.
pub trait ComponentBackendFacade: HasComponent {
    /// For requests to tell the version.
    fn subscribe_version_request(&self) -> (subscribed: Subscription)
        ensures
            subscribed@ == subscription(
                TopicModel::Component(
                    None,
                    self.component_model(),
                    ComponentCommand::VersionRequest,
                ),
                Expected::Notification,
            ),
    {
        let topic = HermesTopic::Component(
            None,
            self.component(),
            ComponentCommand::VersionRequest,
        );
        self.mqtt_handler().subscribe(&topic)
    }

    /// The version.
    fn publish_version<E>(&self, payload: Result<Vec<u8>, E>) -> (published: Result<Publication, E>)
        ensures
            payload_publication(
                TopicModel::Component(None, self.component_model(), ComponentCommand::Version),
                payload,
                published,
            ),
    {
        let topic = HermesTopic::Component(None, self.component(), ComponentCommand::Version);
        self.mqtt_handler().publish_payload(&topic, payload)
    }

    /// An error.
    fn publish_error<E>(&self, payload: Result<Vec<u8>, E>) -> (published: Result<Publication, E>)
        ensures
            payload_publication(
                TopicModel::Component(None, self.component_model(), ComponentCommand::Error),
                payload,
                published,
            ),
    {
        let topic = HermesTopic::Component(None, self.component(), ComponentCommand::Error);
        self.mqtt_handler().publish_payload(&topic, payload)
    }
}

/// What a client says to and hears of any component at a site.
pub trait IdentifiableComponentFacade: HasComponent {
    /// Tell the version.
    fn publish_version_request(&self, site_id: SiteId) -> (published: Publication)
        ensures
            published@ == publication(
                TopicModel::Component(
                    Some(site_id@),
                    self.component_model(),
                    ComponentCommand::VersionRequest,
                ),
                Seq::empty(),
            ),
    {
        let topic = HermesTopic::Component(
            Some(site_id),
            self.component(),
            ComponentCommand::VersionRequest,
        );
        self.mqtt_handler().publish(&topic)
    }

    /// For the version.
    fn subscribe_version(&self, site_id: SiteId) -> (subscribed: Subscription)
        ensures
            subscribed@ == subscription(
                TopicModel::Component(
                    Some(site_id@),
                    self.component_model(),
                    ComponentCommand::Version,
                ),
                Expected::Json,
            ),
    {
        let topic = HermesTopic::Component(
            Some(site_id),
            self.component(),
            ComponentCommand::Version,
        );
        self.mqtt_handler().subscribe_payload(&topic)
    }

    /// For errors.
    fn subscribe_error(&self, site_id: SiteId) -> (subscribed: Subscription)
        ensures
            subscribed@ == subscription(
                TopicModel::Component(
                    Some(site_id@),
                    self.component_model(),
                    ComponentCommand::Error,
                ),
                Expected::Json,
            ),
    {
        let topic = HermesTopic::Component(
            Some(site_id),
            self.component(),
            ComponentCommand::Error,
        );
        self.mqtt_handler().subscribe_payload(&topic)
    }
}

/// What any component at a site hears and says.
pub trait IdentifiableComponentBackendFacade: HasComponent {
    /// For requests to tell the version.
    fn subscribe_version_request(&self, site_id: SiteId) -> (subscribed: Subscription)
        ensures
            subscribed@ == subscription(
                TopicModel::Component(
                    Some(site_id@),
                    self.component_model(),
                    ComponentCommand::VersionRequest,
                ),
                Expected::Notification,
            ),
    {
        let topic = HermesTopic::Component(
            Some(site_id),
            self.component(),
            ComponentCommand::VersionRequest,
        );
        self.mqtt_handler().subscribe(&topic)
    }

    /// The version.
    fn publish_version<E>(
        &self,
        site_id: SiteId,
        payload: Result<Vec<u8>, E>,
    ) -> (published: Result<Publication, E>)
        ensures
            payload_publication(
                TopicModel::Component(
                    Some(site_id@),
                    self.component_model(),
                    ComponentCommand::Version,
                ),
                payload,
                published,
            ),
    {
        let topic = HermesTopic::Component(
            Some(site_id),
            self.component(),
            ComponentCommand::Version,
        );
        self.mqtt_handler().publish_payload(&topic, payload)
    }

    /// An error.
    fn publish_error<E>(
        &self,
        site_id: SiteId,
        payload: Result<Vec<u8>, E>,
    ) -> (published: Result<Publication, E>)
        ensures
            payload_publication(
                TopicModel::Component(
                    Some(site_id@),
                    self.component_model(),
                    ComponentCommand::Error,
                ),
                payload,
                published,
            ),
    {
        let topic = HermesTopic::Component(
            Some(site_id),
            self.component(),
            ComponentCommand::Error,
        );
        self.mqtt_handler().publish_payload(&topic, payload)
    }
}

/// What a client says to what can be switched on and off.
pub trait ToggleableFacade: HasToggle {
    /// Switch it on.
    fn publish_toggle_on(&self) -> (published: Publication)
        ensures
            published@ == publication(self.toggle_on_model(), Seq::empty()),
    {
        self.mqtt_handler().publish(self.toggle_on_topic())
    }

    /// Switch it off.
    fn publish_toggle_off(&self) -> (published: Publication)
        ensures
            published@ == publication(self.toggle_off_model(), Seq::empty()),
    {
        self.mqtt_handler().publish(self.toggle_off_topic())
    }
}

/// What that which can be switched on and off hears.
pub trait ToggleableBackendFacade: HasToggle {
    /// For requests to switch it on.
    fn subscribe_toggle_on(&self) -> (subscribed: Subscription)
        ensures
            subscribed@ == subscription(self.toggle_on_model(), Expected::Notification),
    {
        self.mqtt_handler().subscribe(self.toggle_on_topic())
    }

    /// For requests to switch it off.
    fn subscribe_toggle_off(&self) -> (subscribed: Subscription)
        ensures
            subscribed@ == subscription(self.toggle_off_model(), Expected::Notification),
    {
        self.mqtt_handler().subscribe(self.toggle_off_topic())
    }
}

/// What a client says to what can be switched on and off at a site.
pub trait IdentifiableToggleableFacade: HasToggle {
    /// Switch it on at the site of the payload.
    fn publish_toggle_on<E>(
        &self,
        payload: Result<Vec<u8>, E>,
    ) -> (published: Result<Publication, E>)
        ensures
            payload_publication(self.toggle_on_model(), payload, published),
    {
        self.mqtt_handler().publish_payload(self.toggle_on_topic(), payload)
    }

    /// Switch it off at the site of the payload.
    fn publish_toggle_off<E>(
        &self,
        payload: Result<Vec<u8>, E>,
    ) -> (published: Result<Publication, E>)
        ensures
            payload_publication(self.toggle_off_model(), payload, published),
    {
        self.mqtt_handler().publish_payload(self.toggle_off_topic(), payload)
    }
}

/// What that which can be switched on and off at a site hears.
pub trait IdentifiableToggleableBackendFacade: HasToggle {
    /// For requests to switch it on at a site.
    fn subscribe_toggle_on(&self) -> (subscribed: Subscription)
        ensures
            subscribed@ == subscription(self.toggle_on_model(), Expected::Json),
    {
        self.mqtt_handler().subscribe_payload(self.toggle_on_topic())
    }

    /// For requests to switch it off at a site.
    fn subscribe_toggle_off(&self) -> (subscribed: Subscription)
        ensures
            subscribed@ == subscription(self.toggle_off_model(), Expected::Json),
    {
        self.mqtt_handler().subscribe_payload(self.toggle_off_topic())
    }
}

/// The facade of a component that is always on.
#[derive(Debug)]
pub struct MqttComponentFacade {
    pub component: Component,
    pub mqtt_handler: Arc<MqttHandler>,
}

/// The facade of something that can be switched on and off and is no
/// component.
#[derive(Debug)]
pub struct MqttToggleableFacade {
    pub toggle_on_topic: HermesTopic,
    pub toggle_off_topic: HermesTopic,
    pub mqtt_handler: Arc<MqttHandler>,
}

/// The facade of a component that can be switched on and off.
#[derive(Debug)]
pub struct MqttToggleableComponentFacade {
    pub component: Component,
    pub toggle_on_topic: HermesTopic,
    pub toggle_off_topic: HermesTopic,
    pub mqtt_handler: Arc<MqttHandler>,
}

impl MqttToggleableComponentFacade {
    /// Whether the facade stands for a component that two topics switch on and
    /// off.
    pub open spec fn stands_for(
        &self,
        component: Component,
        on: TopicModel,
        off: TopicModel,
    ) -> bool {
        &&& self.component == component
        &&& self.toggle_on_topic@ == on
        &&& self.toggle_off_topic@ == off
    }
}

impl HasHandler for MqttComponentFacade {
    open spec fn handler_model(&self) -> MqttHandler {
        *self.mqtt_handler
    }

    fn mqtt_handler(&self) -> &MqttHandler {
        &self.mqtt_handler
    }
}

impl HasHandler for MqttToggleableFacade {
    open spec fn handler_model(&self) -> MqttHandler {
        *self.mqtt_handler
    }

    fn mqtt_handler(&self) -> &MqttHandler {
        &self.mqtt_handler
    }
}

impl HasHandler for MqttToggleableComponentFacade {
    open spec fn handler_model(&self) -> MqttHandler {
        *self.mqtt_handler
    }

    fn mqtt_handler(&self) -> &MqttHandler {
        &self.mqtt_handler
    }
}

impl HasComponent for MqttComponentFacade {
    open spec fn component_model(&self) -> Component {
        self.component
    }

    fn component(&self) -> Component {
        self.component
    }
}

impl HasComponent for MqttToggleableComponentFacade {
    open spec fn component_model(&self) -> Component {
        self.component
    }

    fn component(&self) -> Component {
        self.component
    }
}

impl HasToggle for MqttToggleableFacade {
    open spec fn toggle_on_model(&self) -> TopicModel {
        self.toggle_on_topic@
    }

    open spec fn toggle_off_model(&self) -> TopicModel {
        self.toggle_off_topic@
    }

    fn toggle_on_topic(&self) -> &HermesTopic {
        &self.toggle_on_topic
    }

    fn toggle_off_topic(&self) -> &HermesTopic {
        &self.toggle_off_topic
    }
}

impl HasToggle for MqttToggleableComponentFacade {
    open spec fn toggle_on_model(&self) -> TopicModel {
        self.toggle_on_topic@
    }

    open spec fn toggle_off_model(&self) -> TopicModel {
        self.toggle_off_topic@
    }

    fn toggle_on_topic(&self) -> &HermesTopic {
        &self.toggle_on_topic
    }

    fn toggle_off_topic(&self) -> &HermesTopic {
        &self.toggle_off_topic
    }
}

impl ComponentFacade for MqttComponentFacade {

}

impl ComponentBackendFacade for MqttComponentFacade {

}

impl IdentifiableComponentFacade for MqttComponentFacade {

}

impl IdentifiableComponentBackendFacade for MqttComponentFacade {

}

impl ComponentFacade for MqttToggleableComponentFacade {

}

impl ComponentBackendFacade for MqttToggleableComponentFacade {

}

impl IdentifiableComponentFacade for MqttToggleableComponentFacade {

}

impl IdentifiableComponentBackendFacade for MqttToggleableComponentFacade {

}

impl ToggleableFacade for MqttToggleableComponentFacade {

}

impl ToggleableBackendFacade for MqttToggleableComponentFacade {

}

impl IdentifiableToggleableFacade for MqttToggleableComponentFacade {

}

impl IdentifiableToggleableBackendFacade for MqttToggleableComponentFacade {

}

impl IdentifiableToggleableFacade for MqttToggleableFacade {

}

impl IdentifiableToggleableBackendFacade for MqttToggleableFacade {

}

} // verus!
