//! The settings of the relay, and what they ask for.

use crate::ai_dispatcher::AIDispatcher;
use crate::dispatcher::AIBuilder;
use crate::text::{opt_text, reads};
use vstd::prelude::*;

verus! {

/// Which service answers, and how to reach it.
#[derive(Debug, Clone, PartialEq, Eq)]
pub enum AIEngineType {
    /// The hosted service: the token to use, and the name of the model if
    /// not the default one.
    ChatGPT { openai_token: String, engine: Option<String> },
    /// A server of one's own that speaks the same protocol: its address, and
    /// the name of the model to ask it for, if any.
    LLaMa { api_url: String, model: Option<String> },
}

/// The settings of the engine.
#[derive(Debug, Clone, PartialEq, Eq)]
pub struct AIEngine {
    pub engine_type: AIEngineType,
    /// The most answers to ask for.
    pub reply_count: Option<u32>,
    /// The directory to keep the context of each channel in.
    pub context_path: Option<String>,
}

/// The settings of the chat platform.
#[derive(Debug, Clone, PartialEq, Eq)]
pub struct DiscordConfig {
    pub discord_token: String,
    /// Patterns of the channel names to serve.
    pub channel_whitelist: Vec<String>,
}

/// The languages of the translation stage.
#[derive(Debug, Clone, PartialEq, Eq)]
pub struct DeepLxTranslateConfig {
    /// The language of the speaker, or `auto`.
    pub src_lang: String,
    /// The language to answer in.
    pub dest_lang: String,
}

/// All settings.
#[derive(Debug, Clone, PartialEq, Eq)]
pub struct Config {
    pub ai_engine: AIEngine,
    /// The directive that opens every conversation.
    pub initial_prompt: String,
    pub discord_config: DiscordConfig,
    pub deeplx_translate_config: DeepLxTranslateConfig,
    /// What to say when the session is taken.
    pub busy_messages: Vec<String>,
    /// Whether to show the model's own words beside the translation.
    pub display_raw_resp: bool,
}

/// The models that can be asked for.
#[derive(Debug, Clone, PartialEq, Eq)]
pub enum GptModel {
    Gpt35Turbo,
    Gpt35Turbo0301,
    Gpt4,
    Gpt4x32k,
    Gpt4x0314,
    Gpt4x32kx0314,
    /// A model of a server of one's own, by its name there.
    Custom(String),
}

/// What is wrong with the settings.
#[derive(Debug, Clone, PartialEq, Eq)]
pub enum ConfigError {
    /// The hosted service has no model of this name.
    InvalidEngine(String),
}

/// The model that a name of the hosted service stands for, if it is one.
pub open spec fn named_model(name: Seq<char>) -> Option<GptModel> {
    if name == "Gpt35Turbo"@ {
        Some(GptModel::Gpt35Turbo)
    } else if name == "Gpt35Turbo_0301"@ {
        Some(GptModel::Gpt35Turbo0301)
    } else if name == "Gpt4"@ {
        Some(GptModel::Gpt4)
    } else if name == "Gpt4_32k"@ {
        Some(GptModel::Gpt4x32k)
    } else if name == "Gpt4_0314"@ {
        Some(GptModel::Gpt4x0314)
    } else if name == "Gpt4_32k_0314"@ {
        Some(GptModel::Gpt4x32kx0314)
    } else {
        None
    }
}

/// The model that the settings ask for: the named one, a custom one for a
/// server of one's own, and the default where no name is given.
pub open spec fn chosen_model(engine: AIEngineType) -> Result<GptModel, ConfigError> {
    match engine {
        AIEngineType::ChatGPT { openai_token, engine: Some(name) } => match named_model(name@) {
            Some(m) => Ok(m),
            None => Err(ConfigError::InvalidEngine(name)),
        },
        AIEngineType::ChatGPT { openai_token, engine: None } => Ok(GptModel::Gpt35Turbo),
        AIEngineType::LLaMa { api_url, model: Some(name) } => Ok(GptModel::Custom(name)),
        AIEngineType::LLaMa { api_url, model: None } => Ok(GptModel::Gpt35Turbo),
    }
}

/// The model that the settings ask for. See [`chosen_model`].
pub fn select_gpt_model(config: &Config) -> (r: Result<GptModel, ConfigError>)
    ensures
        match (r, chosen_model(config.ai_engine.engine_type)) {
            (Ok(m), Ok(c)) => m == c,
            (Err(ConfigError::InvalidEngine(n)), Err(ConfigError::InvalidEngine(c))) => n@ == c@,
            _ => false,
        },
{
    match &config.ai_engine.engine_type {
        AIEngineType::ChatGPT { openai_token: _, engine } => match engine {
            Some(name) => {
                if reads(name, "Gpt35Turbo") {
                    Ok(GptModel::Gpt35Turbo)
                } else if reads(name, "Gpt35Turbo_0301") {
                    Ok(GptModel::Gpt35Turbo0301)
                } else if reads(name, "Gpt4") {
                    Ok(GptModel::Gpt4)
                } else if reads(name, "Gpt4_32k") {
                    Ok(GptModel::Gpt4x32k)
                } else if reads(name, "Gpt4_0314") {
                    Ok(GptModel::Gpt4x0314)
                } else if reads(name, "Gpt4_32k_0314") {
                    Ok(GptModel::Gpt4x32kx0314)
                } else {
                    Err(ConfigError::InvalidEngine(name.clone()))
                }
            },
            None => Ok(GptModel::Gpt35Turbo),
        },
        AIEngineType::LLaMa { api_url: _, model } => match model {
            Some(name) => Ok(GptModel::Custom(name.clone())),
            None => Ok(GptModel::Gpt35Turbo),
        },
    }
}

/// What the backend of a session is made from: the service, the model, the
/// directive, and the languages of the translation stage around it.
#[derive(Debug, Clone, PartialEq, Eq)]
pub struct ChatGPTEnAIBuilder {
    pub openai_token: String,
    /// The address of a server of one's own, if that is what answers.
    pub api_url: Option<String>,
    pub model: GptModel,
    pub reply_count: Option<u32>,
    pub initial_prompt: String,
    pub src_lang: String,
    pub dest_lang: String,
}

/// What a streamed backend is made from: the service, the model and the
/// directive.
#[derive(Debug, Clone, PartialEq, Eq)]
pub struct ChatGPTAIBuilder {
    pub openai_token: String,
    /// The address of a server of one's own, if that is what answers.
    pub api_url: Option<String>,
    pub model: GptModel,
    pub reply_count: Option<u32>,
    pub initial_prompt: String,
}

/// The token that stands in where a server of one's own asks for none.
pub open spec fn no_token() -> Seq<char> {
    "no-token"@
}

/// The token to present to the service.
pub open spec fn token_of(engine: AIEngineType) -> Seq<char> {
    match engine {
        AIEngineType::ChatGPT { openai_token, engine } => openai_token@,
        AIEngineType::LLaMa { api_url, model } => no_token(),
    }
}

/// The address of the server of one's own, if that is what answers.
pub open spec fn address_of(engine: AIEngineType) -> Option<Seq<char>> {
    match engine {
        AIEngineType::ChatGPT { openai_token, engine } => None,
        AIEngineType::LLaMa { api_url, model } => Some(api_url@),
    }
}

impl ChatGPTEnAIBuilder {
    /// `self` is what `config` asks for, with `model` as its model.
    pub open spec fn follows(&self, config: &Config, model: GptModel) -> bool {
        &&& self.openai_token@ == token_of(config.ai_engine.engine_type)
        &&& opt_text(self.api_url) == address_of(config.ai_engine.engine_type)
        &&& self.model == model
        &&& self.reply_count == config.ai_engine.reply_count
        &&& self.initial_prompt@ == config.initial_prompt@
        &&& self.src_lang@ == config.deeplx_translate_config.src_lang@
        &&& self.dest_lang@ == config.deeplx_translate_config.dest_lang@
    }

    /// What `config` asks for, with `model` as its model.
    pub fn new(model: GptModel, config: &Config) -> (r: Self)
        ensures
            r.follows(config, model),
    {
        let (openai_token, api_url) = engine_access(&config.ai_engine.engine_type);
        ChatGPTEnAIBuilder {
            openai_token,
            api_url,
            model,
            reply_count: config.ai_engine.reply_count,
            initial_prompt: config.initial_prompt.clone(),
            src_lang: config.deeplx_translate_config.src_lang.clone(),
            dest_lang: config.deeplx_translate_config.dest_lang.clone(),
        }
    }
}

impl ChatGPTAIBuilder {
    /// `self` is what `config` asks for, with `model` as its model.
    pub open spec fn follows(&self, config: &Config, model: GptModel) -> bool {
        &&& self.openai_token@ == token_of(config.ai_engine.engine_type)
        &&& opt_text(self.api_url) == address_of(config.ai_engine.engine_type)
        &&& self.model == model
        &&& self.reply_count == config.ai_engine.reply_count
        &&& self.initial_prompt@ == config.initial_prompt@
    }

    /// What `config` asks for, with `model` as its model.
    pub fn new(model: GptModel, config: &Config) -> (r: Self)
        ensures
            r.follows(config, model),
    {
        let (openai_token, api_url) = engine_access(&config.ai_engine.engine_type);
        ChatGPTAIBuilder {
            openai_token,
            api_url,
            model,
            reply_count: config.ai_engine.reply_count,
            initial_prompt: config.initial_prompt.clone(),
        }
    }
}

/// The token to present and the address to present it at.
fn engine_access(engine: &AIEngineType) -> (r: (String, Option<String>))
    ensures
        r.0@ == token_of(*engine),
        opt_text(r.1) == address_of(*engine),
{
    match engine {
        AIEngineType::ChatGPT { openai_token, engine: _ } => (openai_token.clone(), None),
        AIEngineType::LLaMa { api_url, model: _ } => ("no-token".to_owned(), Some(api_url.clone())),
    }
}

/// The dispatcher that the settings ask for. `connect` turns the description
/// of a backend into the builder of such backends; it is called once.
///
/// The settings are refused where they name a model that the hosted service
/// does not have, and `connect` is not called then.
pub fn create_ai_dispatcher<AIB: AIBuilder, F: FnOnce(ChatGPTEnAIBuilder) -> AIB>(
    config: &Config,
    connect: F,
) -> (r: Result<AIDispatcher<AIB>, ConfigError>)
    requires
        forall|b: ChatGPTEnAIBuilder| call_requires(connect, (b,)),
    ensures
        r is Ok <==> chosen_model(config.ai_engine.engine_type) is Ok,
        r matches Err(ConfigError::InvalidEngine(n)) ==> chosen_model(
            config.ai_engine.engine_type,
        ) matches Err(ConfigError::InvalidEngine(c)) && n@ == c@,
        r matches Ok(d) ==> {
            &&& d.wf()
            &&& d@.sessions == Map::<Seq<char>, Option<AIB::AI>>::empty()
            &&& d@.directory == opt_text(config.ai_engine.context_path)
            &&& exists|b: ChatGPTEnAIBuilder|
                b.follows(config, chosen_model(config.ai_engine.engine_type)->Ok_0)
                    && #[trigger] call_ensures(connect, (b,), d@.constructor)
        },
{
    match select_gpt_model(config) {
        Ok(model) => {
            let description = ChatGPTEnAIBuilder::new(model, config);
            let builder = connect(description);
            Ok(AIDispatcher::new(builder, config.ai_engine.context_path.clone()))
        },
        Err(e) => Err(e),
    }
}

/// The streamed backend that the settings ask for. `connect` turns the
/// description of the backend into the backend; it is called once.
///
/// The settings are refused where they name a model that the hosted service
/// does not have, and `connect` is not called then.
pub fn create_streamed_ai<AI, F: FnOnce(ChatGPTAIBuilder) -> AI>(config: &Config, connect: F) -> (r:
    Result<AI, ConfigError>)
    requires
        forall|b: ChatGPTAIBuilder| call_requires(connect, (b,)),
    ensures
        r is Ok <==> chosen_model(config.ai_engine.engine_type) is Ok,
        r matches Err(ConfigError::InvalidEngine(n)) ==> chosen_model(
            config.ai_engine.engine_type,
        ) matches Err(ConfigError::InvalidEngine(c)) && n@ == c@,
        r matches Ok(ai) ==> {
            exists|b: ChatGPTAIBuilder|
                b.follows(config, chosen_model(config.ai_engine.engine_type)->Ok_0)
                    && #[trigger] call_ensures(connect, (b,), ai)
        },
{
    match select_gpt_model(config) {
        Ok(model) => {
            let description = ChatGPTAIBuilder::new(model, config);
            let ai = connect(description);
            let r: Result<AI, ConfigError> = Ok(ai);
            assert(r matches Ok(a) ==> call_ensures(connect, (description,), a));
            assert(r matches Ok(a) ==> {
                exists|b: ChatGPTAIBuilder|
                    b.follows(config, chosen_model(config.ai_engine.engine_type)->Ok_0)
                        && #[trigger] call_ensures(connect, (b,), a)
            });
            r
        },
        Err(e) => Err(e),
    }
}

} // verus!
