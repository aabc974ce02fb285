# agentic_ai

Small tool-using language-model agents, with their logic verified by Verus.

- `src/` is the verified library: the prompts each agent sends, the tools it
  calls (the hidden-number game, file counting, mock searches), the sliding
  working memory of the planner, the tool registry and chat history of the
  chat agent, the reasoning graph's routing, and the decision taken on each
  model reply. Every function there carries a contract over views.
- `app/` runs the agents against ollama, Gemini, rig and an HTTP endpoint: it
  performs the model calls, reads replies into the library's types (serde),
  reads directories, turns tool reports into JSON and prints. The first
  command-line argument picks the agent.
- `tests/` exercise the library on concrete values.
