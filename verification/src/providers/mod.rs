//! One adapter per provider, each composing the shared reconciliation,
//! scraping and heuristic building blocks into a normalized model list.

pub mod anthropic;
pub mod deepseek;
pub mod gemini;
pub mod github_ai;
pub mod groq;
pub mod ollama;
pub mod openai;
pub mod openrouter;
pub mod ppinfra;
pub mod tokenflux;
pub mod vercel;
