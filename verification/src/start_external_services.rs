//! Which helper services to start on this machine.

use crate::decimal::{decimal, decimal_text};
use vstd::prelude::*;

verus! {

/// Where a service is expected: the host and the port of its address, as
/// far as the address states them.
#[derive(Debug, Clone, PartialEq, Eq)]
pub struct ServiceEndpoint {
    pub host: Option<String>,
    pub port: Option<u16>,
}

/// A service to start: its script and the arguments to give it.
#[derive(Debug, Clone, PartialEq, Eq)]
pub struct ServiceLaunch {
    pub script: String,
    pub args: Vec<String>,
}

impl View for ServiceLaunch {
    type V = (Seq<char>, Seq<Seq<char>>);

    open spec fn view(&self) -> (Seq<char>, Seq<Seq<char>>) {
        (self.script@, self.args@.map_values(|a: String| a@))
    }
}

/// The service is expected on this machine: its address names `localhost`
/// or no host at all.
pub open spec fn is_local(endpoint: ServiceEndpoint) -> bool {
    match endpoint.host {
        Some(h) => h@ == "localhost"@,
        None => true,
    }
}

/// The service is in use and expected on this machine.
pub open spec fn wanted_here(endpoint: Option<ServiceEndpoint>) -> bool {
    match endpoint {
        Some(e) => is_local(e),
        None => false,
    }
}

/// The port of the service: the one its address states, or `default`.
pub open spec fn port_of(endpoint: ServiceEndpoint, default: u16) -> u16 {
    match endpoint.port {
        Some(p) => p,
        None => default,
    }
}

/// How the speech synthesis is started.
pub open spec fn tts_launch(
    tts: ServiceEndpoint,
    models_store_path: Seq<char>,
    voice_language: Seq<char>,
    voice_model: Seq<char>,
) -> (Seq<char>, Seq<Seq<char>>) {
    (
        "Selerio-TTS-server/main.py"@,
        seq![
            "-m"@,
            models_store_path,
            "-p"@,
            decimal_text(port_of(tts, 8961) as nat),
            voice_language,
            voice_model,
        ],
    )
}

/// How the speech recognition is started.
pub open spec fn stt_launch(stt: ServiceEndpoint, models_store_path: Seq<char>) -> (
    Seq<char>,
    Seq<Seq<char>>,
) {
    (
        "Voice-2-txt-UrukHan/main.py"@,
        seq!["-m"@, models_store_path, "-p"@, decimal_text(port_of(stt, 3154) as nat)],
    )
}

/// The services to start: the speech synthesis and the speech recognition,
/// in this order, each if it is in use and expected on this machine.
pub open spec fn launches(
    tts: Option<ServiceEndpoint>,
    stt: Option<ServiceEndpoint>,
    models_store_path: Seq<char>,
    voice_language: Seq<char>,
    voice_model: Seq<char>,
) -> Seq<(Seq<char>, Seq<Seq<char>>)> {
    let first = if wanted_here(tts) {
        seq![tts_launch(tts->Some_0, models_store_path, voice_language, voice_model)]
    } else {
        Seq::empty()
    };
    if wanted_here(stt) {
        first.push(stt_launch(stt->Some_0, models_store_path))
    } else {
        first
    }
}

/// Whether the service is expected on this machine.
pub fn local(endpoint: &ServiceEndpoint) -> (r: bool)
    ensures
        r == is_local(*endpoint),
{
    match &endpoint.host {
        Some(h) => {
            let l = "localhost".to_owned();
            *h == l
        },
        None => true,
    }
}

/// Whether the service is in use and expected on this machine.
fn wanted(endpoint: &Option<ServiceEndpoint>) -> (r: bool)
    ensures
        r == wanted_here(*endpoint),
{
    match endpoint {
        Some(e) => local(e),
        None => false,
    }
}

fn port(endpoint: &ServiceEndpoint, default: u16) -> (r: u16)
    ensures
        r == port_of(*endpoint, default),
{
    match endpoint.port {
        Some(p) => p,
        None => default,
    }
}

/// The services to start. See [`launches`].
pub fn start_external_services(
    tts: Option<ServiceEndpoint>,
    stt: Option<ServiceEndpoint>,
    models_store_path: &str,
    voice_language: &str,
    voice_model: &str,
) -> (r: Vec<ServiceLaunch>)
    ensures
        r@.map_values(|l: ServiceLaunch| l@) == launches(
            tts,
            stt,
            models_store_path@,
            voice_language@,
            voice_model@,
        ),
{
    let mut r: Vec<ServiceLaunch> = Vec::new();
    let ghost view_of = |l: ServiceLaunch| l@;
    let ghost text_of = |a: String| a@;
    if wanted(&tts) {
        let tts = tts.unwrap();
        let mut args: Vec<String> = Vec::new();
        args.push("-m".to_owned());
        args.push(models_store_path.to_owned());
        args.push("-p".to_owned());
        args.push(decimal(port(&tts, 8961) as u64));
        args.push(voice_language.to_owned());
        args.push(voice_model.to_owned());
        let launch = ServiceLaunch { script: "Selerio-TTS-server/main.py".to_owned(), args };
        assert(launch@.1 =~= tts_launch(
            tts,
            models_store_path@,
            voice_language@,
            voice_model@,
        ).1);
        r.push(launch);
        assert(r@.map_values(view_of) =~= seq![launch@]);
    }
    let ghost first = r@.map_values(view_of);
    assert(!wanted_here(tts) ==> first =~= Seq::empty());
    if wanted(&stt) {
        let stt = stt.unwrap();
        let mut args: Vec<String> = Vec::new();
        args.push("-m".to_owned());
        args.push(models_store_path.to_owned());
        args.push("-p".to_owned());
        args.push(decimal(port(&stt, 3154) as u64));
        let launch = ServiceLaunch { script: "Voice-2-txt-UrukHan/main.py".to_owned(), args };
        assert(launch@.1 =~= stt_launch(stt, models_store_path@).1);
        r.push(launch);
        assert(r@.map_values(view_of) =~= first.push(launch@));
    }
    r
}

} // verus!
