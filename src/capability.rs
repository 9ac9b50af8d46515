use vstd::prelude::*;

verus! {

/// The provider services a client can talk to.
#[derive(Clone, Copy, Debug, PartialEq, Eq, Structural)]
pub enum ProviderKind {
    Anthropic,
    Gemini,
    Together,
}

/// The optional feature families a provider client may offer.
#[derive(Clone, Copy, Debug, PartialEq, Eq, Structural)]
pub enum Capability {
    Completion,
    Embeddings,
    Transcription,
    ImageGeneration,
    AudioGeneration,
}

/// Reports that `provider` does not offer `capability`.
#[derive(Clone, Copy, Debug, PartialEq, Eq, Structural)]
pub struct UnsupportedCapability {
    pub provider: ProviderKind,
    pub capability: Capability,
}

/// Which capabilities each provider implements.
pub open spec fn provider_supports(p: ProviderKind, c: Capability) -> bool {
    match p {
        ProviderKind::Anthropic => c == Capability::Completion,
        ProviderKind::Gemini => c == Capability::Completion || c == Capability::Embeddings
            || c == Capability::Transcription,
        ProviderKind::Together => c == Capability::Completion || c == Capability::Embeddings,
    }
}

/// The answer to asking `p` for `c`: nothing to report, or a typed refusal.
pub open spec fn capability_answer(p: ProviderKind, c: Capability) -> Result<(), UnsupportedCapability> {
    if provider_supports(p, c) {
        Ok(())
    } else {
        Err(UnsupportedCapability { provider: p, capability: c })
    }
}

/// Whether provider `p` implements capability `c`.
pub fn supports(p: ProviderKind, c: Capability) -> (r: bool)
    ensures
        r == provider_supports(p, c),
{
    match p {
        ProviderKind::Anthropic => matches!(c, Capability::Completion),
        ProviderKind::Gemini => matches!(
            c,
            Capability::Completion | Capability::Embeddings | Capability::Transcription
        ),
        ProviderKind::Together => matches!(c, Capability::Completion | Capability::Embeddings),
    }
}

/// Asks provider `p` for capability `c`. The answer depends on `p` and `c`
/// alone: an unsupported capability is refused with a typed error on every
/// call, never with a panic and never with a success.
pub fn check_capability(p: ProviderKind, c: Capability) -> (r: Result<(), UnsupportedCapability>)
    ensures
        r == capability_answer(p, c),
        r is Ok <==> provider_supports(p, c),
{
    if supports(p, c) {
        Ok(())
    } else {
        Err(UnsupportedCapability { provider: p, capability: c })
    }
}

/// Two queries of the same capability on the same provider give the same
/// answer, and for a capability the provider lacks that answer is the typed
/// refusal naming both.
pub proof fn lemma_unsupported_always_refused(p: ProviderKind, c: Capability)
    requires
        !provider_supports(p, c),
    ensures
        capability_answer(p, c) == Err::<(), UnsupportedCapability>(
            UnsupportedCapability { provider: p, capability: c },
        ),
{
}

/// An Anthropic client offers completion and nothing else: every other
/// capability, embeddings and transcription among them, is refused with the
/// typed error on every query.
pub proof fn lemma_anthropic_completion_only(c: Capability)
    ensures
        capability_answer(ProviderKind::Anthropic, c) is Ok <==> c == Capability::Completion,
        c != Capability::Completion ==> capability_answer(ProviderKind::Anthropic, c)
            == Err::<(), UnsupportedCapability>(
            UnsupportedCapability { provider: ProviderKind::Anthropic, capability: c },
        ),
{
}

} // verus!
