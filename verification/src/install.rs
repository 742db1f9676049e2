//! What the extension registers with its host, and in which order.

use vstd::prelude::*;

verus! {

/// One entry of the host's registry.
#[derive(Clone, Copy, Debug, PartialEq, Eq, Structural)]
pub enum Registration {
    /// Discovery of the MCP servers that thread-selected executor plugins declare.
    ExecutorPluginMcpServerContributor,
    /// The Apps service, as the initializer of thread data.
    AppsThreadDataInitializer,
    /// The Apps service, as a contributor of MCP servers.
    AppsMcpServerContributor,
    /// The Apps service, as the verifier of plugin installations.
    AppsPluginInstallVerifier,
    /// The Apps service, as a contributor to prompts.
    AppsPromptContributor,
    /// The Apps service, as a contributor to turn inputs.
    AppsTurnInputContributor,
    /// The Apps service, as a contributor to tool lifecycles.
    AppsToolLifecycleContributor,
    /// The Apps service, as a contributor of turn items.
    AppsTurnItemContributor,
}

/// The registrations for a host, in the order in which they are to be made.
#[derive(Debug)]
pub struct ExtensionRegistryBuilder {
    pub registrations: Vec<Registration>,
}

impl View for ExtensionRegistryBuilder {
    type V = Seq<Registration>;

    open spec fn view(&self) -> Seq<Registration> {
        self.registrations@
    }
}

/// The registrations of the Apps service.
pub open spec fn apps_registrations() -> Seq<Registration> {
    seq![
        Registration::AppsThreadDataInitializer,
        Registration::AppsMcpServerContributor,
        Registration::AppsPluginInstallVerifier,
        Registration::AppsPromptContributor,
        Registration::AppsTurnInputContributor,
        Registration::AppsToolLifecycleContributor,
        Registration::AppsTurnItemContributor,
    ]
}

/// The registrations of executor plugin discovery.
pub open spec fn executor_plugin_registrations() -> Seq<Registration> {
    seq![Registration::ExecutorPluginMcpServerContributor]
}

impl ExtensionRegistryBuilder {
    /// No registration yet.
    pub fn new() -> (builder: Self)
        ensures
            builder@ == Seq::<Registration>::empty(),
    {
        ExtensionRegistryBuilder { registrations: Vec::new() }
    }
}

/// Registers the Apps service.
pub fn install(builder: &mut ExtensionRegistryBuilder)
    ensures
        final(builder)@ == old(builder)@ + apps_registrations(),
{
    builder.registrations.push(Registration::AppsThreadDataInitializer);
    builder.registrations.push(Registration::AppsMcpServerContributor);
    builder.registrations.push(Registration::AppsPluginInstallVerifier);
    builder.registrations.push(Registration::AppsPromptContributor);
    builder.registrations.push(Registration::AppsTurnInputContributor);
    builder.registrations.push(Registration::AppsToolLifecycleContributor);
    builder.registrations.push(Registration::AppsTurnItemContributor);
}

/// Registers executor plugin discovery, and then the Apps service, which uses what it finds.
pub fn install_with_executor_plugins(builder: &mut ExtensionRegistryBuilder)
    ensures
        final(builder)@ == old(builder)@ + executor_plugin_registrations() + apps_registrations(),
{
    install_executor_plugins(builder);
    install(builder);
}

/// Registers executor plugin discovery.
pub fn install_executor_plugins(builder: &mut ExtensionRegistryBuilder)
    ensures
        final(builder)@ == old(builder)@ + executor_plugin_registrations(),
{
    builder.registrations.push(Registration::ExecutorPluginMcpServerContributor);
}

} // verus!
