//! The catalog of gateway model identifiers: pure data naming the models
//! reachable through the gateway, grouped by provider.

use vstd::prelude::*;

verus! {

/// A model reachable through the gateway, named by its provider.
#[derive(Debug, Clone, PartialEq, Eq, Hash)]
pub enum GatewayModelId {
    Alibaba(AlibabaModel),
    Amazon(AmazonModel),
    Anthropic(AnthropicModel),
    ArceeAi(ArceeAiModel),
    Cohere(CohereModel),
    Deepseek(DeepseekModel),
    Google(GoogleModel),
    Inception(InceptionModel),
    Meituan(MeituanModel),
    Meta(MetaModel),
    Minimax(MinimaxModel),
    Mistral(MistralModel),
    MoonshotAi(MoonshotAiModel),
    Morph(MorphModel),
    OpenAi(OpenAiModel),
    Perplexity(PerplexityModel),
    PrimeIntellect(PrimeIntellectModel),
    Stealth(StealthModel),
    Vercel(VercelModel),
    Xai(XaiModel),
    Zai(ZaiModel),
    Custom(String),
}

#[derive(Debug, Clone, Copy, PartialEq, Eq, Hash, Structural)]
pub enum AlibabaModel {
    Qwen3_14b,
    Qwen3_235b,
    Qwen3_30b,
    Qwen3_32b,
    Qwen3_235bA22bThinking,
    Qwen3Coder,
    Qwen3Coder30bA3b,
    Qwen3CoderPlus,
    Qwen3Max,
    Qwen3MaxPreview,
    Qwen3Next80bA3bInstruct,
    Qwen3Next80bA3bThinking,
    Qwen3VlInstruct,
    Qwen3VlThinking,
}

#[derive(Debug, Clone, Copy, PartialEq, Eq, Hash, Structural)]
pub enum AmazonModel {
    NovaLite,
    NovaMicro,
    NovaPro,
}

#[derive(Debug, Clone, Copy, PartialEq, Eq, Hash, Structural)]
pub enum AnthropicModel {
    Claude3Haiku,
    Claude3Opus,
    Claude35Haiku,
    Claude35Sonnet,
    Claude35Sonnet20240620,
    Claude37Sonnet,
    ClaudeHaiku45,
    ClaudeOpus4,
    ClaudeOpus41,
    ClaudeOpus45,
    ClaudeSonnet4,
    ClaudeSonnet45,
}

#[derive(Debug, Clone, Copy, PartialEq, Eq, Hash, Structural)]
pub enum ArceeAiModel {
    TrinityMini,
}

#[derive(Debug, Clone, Copy, PartialEq, Eq, Hash, Structural)]
pub enum CohereModel {
    CommandA,
}

#[derive(Debug, Clone, Copy, PartialEq, Eq, Hash, Structural)]
pub enum DeepseekModel {
    DeepseekR1,
    DeepseekV3,
    DeepseekV31,
    DeepseekV31Terminus,
    DeepseekV32Exp,
    DeepseekV32ExpThinking,
}

#[derive(Debug, Clone, Copy, PartialEq, Eq, Hash, Structural)]
pub enum GoogleModel {
    Gemini20Flash,
    Gemini20FlashLite,
    Gemini25Flash,
    Gemini25FlashImage,
    Gemini25FlashImagePreview,
    Gemini25FlashLite,
    Gemini25FlashLitePreview092025,
    Gemini25FlashPreview092025,
    Gemini25Pro,
    Gemini3ProPreview,
    Gemini3ProImage,
    Gemini3Flash,
}

#[derive(Debug, Clone, Copy, PartialEq, Eq, Hash, Structural)]
pub enum InceptionModel {
    MercuryCoderSmall,
}

#[derive(Debug, Clone, Copy, PartialEq, Eq, Hash, Structural)]
pub enum MeituanModel {
    LongcatFlashChat,
    LongcatFlashThinking,
}

#[derive(Debug, Clone, Copy, PartialEq, Eq, Hash, Structural)]
pub enum MetaModel {
    Llama31_70b,
    Llama31_8b,
    Llama32_11b,
    Llama32_1b,
    Llama32_3b,
    Llama32_90b,
    Llama33_70b,
    Llama4Maverick,
    Llama4Scout,
}

#[derive(Debug, Clone, Copy, PartialEq, Eq, Hash, Structural)]
pub enum MinimaxModel {
    MinimaxM2,
}

#[derive(Debug, Clone, Copy, PartialEq, Eq, Hash, Structural)]
pub enum MistralModel {
    Codestral,
    DevstralSmall,
    MagistralMedium,
    MagistralMedium2506,
    MagistralSmall,
    MagistralSmall2506,
    Ministral3b,
    Ministral8b,
    MistralLarge,
    MistralMedium,
    MistralSmall,
    Mixtral8x22bInstruct,
    Pixtral12b,
    PixtralLarge,
}

#[derive(Debug, Clone, Copy, PartialEq, Eq, Hash, Structural)]
pub enum MoonshotAiModel {
    KimiK2,
    KimiK20905,
    KimiK2Thinking,
    KimiK2ThinkingTurbo,
    KimiK2Turbo,
}

#[derive(Debug, Clone, Copy, PartialEq, Eq, Hash, Structural)]
pub enum MorphModel {
    MorphV3Fast,
    MorphV3Large,
}

#[derive(Debug, Clone, Copy, PartialEq, Eq, Hash, Structural)]
pub enum OpenAiModel {
    Gpt35Turbo,
    Gpt35TurboInstruct,
    Gpt4Turbo,
    Gpt41,
    Gpt41Mini,
    Gpt41Nano,
    Gpt4o,
    Gpt4oMini,
    Gpt5,
    Gpt5Chat,
    Gpt5Codex,
    Gpt5Mini,
    Gpt5Nano,
    Gpt5Pro,
    Gpt51Codex,
    Gpt51CodexMini,
    Gpt51Instant,
    Gpt51Thinking,
    Gpt52,
    Gpt52ChatLatest,
    Gpt52Pro,
    GptOss120b,
    GptOss20b,
    GptOssSafeguard20b,
    O1,
    O3,
    O3DeepResearch,
    O3Mini,
    O4Mini,
}

#[derive(Debug, Clone, Copy, PartialEq, Eq, Hash, Structural)]
pub enum PerplexityModel {
    Sonar,
    SonarPro,
    SonarReasoning,
    SonarReasoningPro,
}

#[derive(Debug, Clone, Copy, PartialEq, Eq, Hash, Structural)]
pub enum PrimeIntellectModel {
    Intellect3,
}

#[derive(Debug, Clone, Copy, PartialEq, Eq, Hash, Structural)]
pub enum StealthModel {
    SonomaDuskAlpha,
    SonomaSkyAlpha,
}

#[derive(Debug, Clone, Copy, PartialEq, Eq, Hash, Structural)]
pub enum VercelModel {
    V0_1_0Md,
    V0_1_5Md,
}

#[derive(Debug, Clone, Copy, PartialEq, Eq, Hash, Structural)]
pub enum XaiModel {
    Grok2,
    Grok2Vision,
    Grok3,
    Grok3Fast,
    Grok3Mini,
    Grok3MiniFast,
    Grok4,
    Grok4FastNonReasoning,
    Grok4FastReasoning,
    Grok41FastReasoning,
    Grok41FastNonReasoning,
    GrokCodeFast1,
}

#[derive(Debug, Clone, Copy, PartialEq, Eq, Hash, Structural)]
pub enum ZaiModel {
    Glm45,
    Glm45Air,
    Glm45v,
    Glm46,
    Glm47,
}

} // verus!
