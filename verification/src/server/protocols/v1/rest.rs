//! What the service tells about itself.
use vstd::prelude::*;

verus! {

/// The entry of the service in the register of extensions.
#[derive(Debug)]
pub struct ServerMetadata {
    pub name: &'static str,
    pub description: &'static str,
    pub icon: &'static str,
    pub company: &'static str,
    pub version: &'static str,
    pub new_page: bool,
    pub webpage: &'static str,
    pub api: &'static str,
}

impl Default for ServerMetadata {
    fn default() -> (metadata: Self)
        ensures
            metadata.name@ == "Navigator Assistant"@,
            metadata.description@ == "A navigator extension to expose navigator to web."@,
            metadata.icon@ == "mdi-compass-outline"@,
            metadata.company@ == "BlueRobotics"@,
            metadata.version@ == "0.0.1"@,
            !metadata.new_page,
            metadata.webpage@ == "https://github.com/RaulTrombin/navigator-assistant"@,
            metadata.api@ == "/docs"@,
    {
        ServerMetadata {
            name: "Navigator Assistant",
            description: "A navigator extension to expose navigator to web.",
            icon: "mdi-compass-outline",
            company: "BlueRobotics",
            version: "0.0.1",
            new_page: false,
            webpage: "https://github.com/RaulTrombin/navigator-assistant",
            api: "/docs",
        }
    }
}

} // verus!
