# strausslib

Library of the Strauss chat service, which carries Twitch chat to a Redis
publish/subscribe network and back.

- `src/string_map.rs`: a string-keyed map whose view is a `Map`, with laws on
  reads after writes and on walking its entries.
- `src/config.rs`: the service configuration (`strauss.yml`) and its loading.
- `src/twitch/`: the Redis channel names for chat, and the Twitch channel and
  credentials taken from the configuration.
- `src/chat_service.rs`: what the chat service does with each message it hears.
- `src/redisclient.rs`: the Redis address.
- `app/`: the service itself: YAML file reading, environment variables, the
  Redis and Twitch IRC connections and the async run loop.
