# hash_miner

The verified core of a multi-account HASH token miner with a Telegram bot, and the program
around it. A nonce answers a challenge when

    keccak256(abi.encode(bytes32 challenge, uint256 nonce)) < difficulty

- `src/` holds the decisions, each with a contract that Verus proves:
  - `pow`: the proof-of-work search;
  - `rules`, `miner`: the mining loop of one account as a state machine, its rules and the
    code that runs them;
  - `laws`: what the rules guarantee;
  - `account`, `config`, `retry`, `stats`: setting accounts up, start-up, retry pacing and
    counters;
  - `telegram`, `command`, `session`, `json`: the bot's texts and requests, its commands and
    what it is told over a session;
  - `text`: numerals, white space and words.
- `app/` talks to the chain, to Telegram and to the console.
- `tests/` runs the library on concrete values.

The accounts are read from `accounts.json`, or from the file named after `--config`. Where no
GPU can be opened, the CPU mines.
