# contrivance

A chat window that classifies the words of typed movement commands
("look", "move", "turn") with a token-classification model, over an
animated skybox.

- `src/` is the verified library:
  - `chat`: the chat log and typing box, and what each window event does;
  - `input`: tokenizing a text and building the classifier's id and mask arrays;
  - `scores`: comparison keys of class probabilities and the choice of the best class;
  - `tokens`: framing tokens and the removal of `##` continuation markers;
  - `report`: one prediction per word piece and the report lines;
  - `labels`: the class names;
  - `cubemap`: decoding the six skybox faces;
  - `scene`: the (empty) per-widget shader states.
- `app/` is the program around it: the iced window and its wgpu shaders,
  ONNX Runtime inference and the probabilities it yields, and the small
  candle network with its `train` and `predict` commands.
- `tests/` runs the library on concrete inputs.
